use raphael::data::Recipe;
use raphael::reduced_state::ReducedState;
use raphael::sim::{Action, ActionMask, Combo, Effects, SimulationState, SingleUse};
use raphael::solver_view::{
    format_thousands, progress_label, QualityTarget, SolverConfig, SolverEvent, SolverStatus,
};

fn effects() -> Effects {
    Effects {
        inner_quiet: 4,
        waste_not: 3,
        innovation: 4,
        veneration: 2,
        great_strides: 1,
        muscle_memory: 5,
        manipulation: 6,
        trained_perfection: SingleUse::Available,
        heart_and_soul: SingleUse::Active,
        quick_innovation_used: false,
        guard: 0,
    }
}

fn state() -> SimulationState {
    SimulationState {
        cp: 300,
        durability: 40,
        progress: 120,
        quality: 900,
        unreliable_quality: 10,
        effects: effects(),
        combo: Combo::StandardTouch,
    }
}

#[test]
fn reduced_state_for_quality() {
    let r = ReducedState::from_state(state(), 3, false);
    assert_eq!(r.steps_budget, 3);
    assert!(!r.progress_only);
    assert_eq!(r.durability, 70);
    assert_eq!(r.combo, Combo::NoCombo);
    let e = r.effects;
    assert_eq!(e.inner_quiet, 4);
    assert_eq!(e.waste_not, 8);
    assert_eq!(e.innovation, 3);
    assert_eq!(e.veneration, 2);
    assert_eq!(e.great_strides, 3);
    assert_eq!(e.muscle_memory, 5);
    assert_eq!(e.manipulation, 0);
    assert_eq!(e.trained_perfection, SingleUse::Unavailable);
    assert_eq!(e.heart_and_soul, SingleUse::Active);
    assert!(!e.quick_innovation_used);
    assert_eq!(e.guard, 1);
}

#[test]
fn reduced_state_for_progress_only() {
    let mut s = state();
    s.effects.waste_not = 0;
    s.effects.trained_perfection = SingleUse::Active;
    s.combo = Combo::BasicTouch;
    let r = ReducedState::from_state(s, 1, true);
    assert_eq!(r.combo, Combo::BasicTouch);
    let e = r.effects;
    assert_eq!(e.inner_quiet, 0);
    assert_eq!(e.innovation, 0);
    assert_eq!(e.veneration, 1);
    assert_eq!(e.great_strides, 0);
    assert_eq!(e.waste_not, 0);
    assert_eq!(e.trained_perfection, SingleUse::Active);
    assert!(e.quick_innovation_used);
    assert_eq!(e.guard, 1);
}

#[test]
fn reducing_twice_changes_nothing() {
    for progress_only in [false, true] {
        let r = ReducedState::from_state(state(), 2, progress_only);
        let again = ReducedState::from_state(r.to_state(), 2, progress_only);
        assert_eq!(again, r);
    }
}

#[test]
fn to_state_and_non_combo() {
    let r = ReducedState::from_state(SimulationState { combo: Combo::SynthesisBegin, ..state() }, 5, false);
    let s = r.to_state();
    assert_eq!(s.cp, 1000);
    assert_eq!(s.progress, 0);
    assert_eq!(s.quality, 0);
    assert_eq!(s.unreliable_quality, 0);
    assert_eq!(s.durability, r.durability);
    assert_eq!(s.effects, r.effects);
    assert_eq!(s.combo, Combo::SynthesisBegin);
    let n = r.to_non_combo();
    assert_eq!(n.combo, Combo::NoCombo);
    assert_eq!(n.effects, r.effects);
    assert_eq!(n.to_non_combo(), n);
}

#[test]
fn action_mask_operations() {
    let m = ActionMask::none().add(Action::Observe).add(Action::ComboAdvancedTouch);
    assert!(m.has(Action::Observe));
    assert!(m.has(Action::ComboAdvancedTouch));
    assert!(!m.has(Action::BasicTouch));
    let m = m.remove(Action::Observe);
    assert!(!m.has(Action::Observe));
    assert!(m.has(Action::ComboAdvancedTouch));
}

#[test]
fn optimized_mask_drops_dominated_actions() {
    let all = [
        Action::BasicSynthesis, Action::BasicTouch, Action::Observe, Action::WasteNot,
        Action::WasteNot2, Action::StandardTouch, Action::AdvancedTouch,
        Action::CarefulSynthesis, Action::TrainedPerfection, Action::ComboStandardTouch,
        Action::ComboAdvancedTouch, Action::Groundwork,
    ];
    let mut m = ActionMask::none();
    for a in all {
        m = m.add(a);
    }
    let o = ReducedState::optimize_action_mask(m);
    for a in [Action::BasicTouch, Action::WasteNot2, Action::AdvancedTouch, Action::CarefulSynthesis, Action::Groundwork] {
        assert!(o.has(a));
    }
    for a in [
        Action::BasicSynthesis, Action::Observe, Action::WasteNot, Action::StandardTouch,
        Action::TrainedPerfection, Action::ComboStandardTouch, Action::ComboAdvancedTouch,
    ] {
        assert!(!o.has(a));
    }
    assert_eq!(ReducedState::optimize_action_mask(o), o);
}

#[test]
fn lesser_actions_stay_without_their_better() {
    let m = ActionMask::none().add(Action::WasteNot).add(Action::BasicSynthesis).add(Action::StandardTouch);
    let o = ReducedState::optimize_action_mask(m);
    assert_eq!(o, m);
}

#[test]
fn thousands_separators() {
    assert_eq!(format_thousands(0), "0");
    assert_eq!(format_thousands(7), "7");
    assert_eq!(format_thousands(999), "999");
    assert_eq!(format_thousands(1000), "1,000");
    assert_eq!(format_thousands(1234567), "1,234,567");
    assert_eq!(format_thousands(12345678), "12,345,678");
    assert_eq!(format_thousands(100200), "100,200");
}

#[test]
fn progress_notes() {
    assert_eq!(progress_label(0), "Populating DP tables");
    assert_eq!(progress_label(1500), "1,500 nodes visited");
}

#[test]
fn solver_status_follows_events() {
    let mut status = SolverStatus::new();
    assert!(!status.solver_pending);
    status.start_solve();
    assert!(status.solver_pending);
    assert_eq!(status.solver_progress, 0);
    assert!(!status.apply_event(SolverEvent::Progress(42)));
    assert_eq!(status.solver_progress, 42);
    assert!(!status.apply_event(SolverEvent::IntermediateSolution(vec![Action::BasicTouch])));
    assert_eq!(status.actions, vec![Action::BasicTouch]);
    assert!(status.solver_pending);
    assert!(status.apply_event(SolverEvent::FinalSolution(vec![Action::Groundwork, Action::BasicSynthesis])));
    assert_eq!(status.actions, vec![Action::Groundwork, Action::BasicSynthesis]);
    assert!(!status.solver_pending);
    assert_eq!(status.solver_progress, 42);
    status.start_solve();
    assert!(status.actions.is_empty());
}

#[test]
fn solver_config_defaults_and_expert_recipes() {
    let c = SolverConfig::default();
    assert_eq!(c.quality_target, QualityTarget::Full);
    assert!(!c.backload_progress && !c.adversarial && !c.minimize_steps);
    let mut c = SolverConfig { adversarial: true, minimize_steps: true, ..c };
    c.adjust_for_recipe(&Recipe { item_id: 1, max_level_scaling: 0, is_expert: false });
    assert!(c.adversarial);
    c.adjust_for_recipe(&Recipe { item_id: 1, max_level_scaling: 0, is_expert: true });
    assert!(!c.adversarial);
    assert!(c.minimize_steps);
}

#[test]
fn optimized_sample_mask_is_the_expected_mask() {
    let m = ActionMask::none()
        .add(Action::WasteNot)
        .add(Action::WasteNot2)
        .add(Action::BasicSynthesis)
        .add(Action::StandardTouch)
        .add(Action::Observe);
    let expected = ActionMask::none()
        .add(Action::WasteNot2)
        .add(Action::BasicSynthesis)
        .add(Action::StandardTouch);
    let o = ReducedState::optimize_action_mask(m);
    assert_eq!(o, expected);
    assert_eq!(ReducedState::optimize_action_mask(o), o);
}

#[test]
fn raw_mask_bits() {
    assert_eq!(ActionMask::none().mask, 0);
    assert_eq!(ActionMask::none().add(Action::Observe).mask, 1 << 3);
    let m = ActionMask { mask: (1u64 << 40) | (1 << 3) | (1 << 30) };
    assert_eq!(m.remove(Action::Observe).mask, (1u64 << 40) | (1 << 30));
    assert_eq!(ReducedState::optimize_action_mask(m).mask, 1u64 << 40);
}
