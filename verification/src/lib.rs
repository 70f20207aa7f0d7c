pub mod data;
pub mod reduced_state;
pub mod search;
pub mod sim;
pub mod solver_view;
pub mod text;
pub mod widgets;
