use vstd::prelude::*;

verus! {

/// The crafting actions.
#[derive(Clone, Copy, Debug, PartialEq, Eq, Hash, Structural)]
pub enum Action {
    BasicSynthesis,
    BasicTouch,
    MasterMend,
    Observe,
    TricksOfTheTrade,
    WasteNot,
    Veneration,
    StandardTouch,
    GreatStrides,
    Innovation,
    WasteNot2,
    ByregotsBlessing,
    PreciseTouch,
    MuscleMemory,
    CarefulSynthesis,
    Manipulation,
    PrudentTouch,
    AdvancedTouch,
    Reflect,
    PreparatoryTouch,
    Groundwork,
    DelicateSynthesis,
    IntensiveSynthesis,
    TrainedEye,
    HeartAndSoul,
    PrudentSynthesis,
    TrainedFinesse,
    RefinedTouch,
    QuickInnovation,
    ImmaculateMend,
    TrainedPerfection,
    ComboStandardTouch,
    ComboAdvancedTouch,
}

/// The bit that stands for an action in an [`ActionMask`].
pub open spec fn action_index(a: Action) -> u64 {
    match a {
        Action::BasicSynthesis => 0,
        Action::BasicTouch => 1,
        Action::MasterMend => 2,
        Action::Observe => 3,
        Action::TricksOfTheTrade => 4,
        Action::WasteNot => 5,
        Action::Veneration => 6,
        Action::StandardTouch => 7,
        Action::GreatStrides => 8,
        Action::Innovation => 9,
        Action::WasteNot2 => 10,
        Action::ByregotsBlessing => 11,
        Action::PreciseTouch => 12,
        Action::MuscleMemory => 13,
        Action::CarefulSynthesis => 14,
        Action::Manipulation => 15,
        Action::PrudentTouch => 16,
        Action::AdvancedTouch => 17,
        Action::Reflect => 18,
        Action::PreparatoryTouch => 19,
        Action::Groundwork => 20,
        Action::DelicateSynthesis => 21,
        Action::IntensiveSynthesis => 22,
        Action::TrainedEye => 23,
        Action::HeartAndSoul => 24,
        Action::PrudentSynthesis => 25,
        Action::TrainedFinesse => 26,
        Action::RefinedTouch => 27,
        Action::QuickInnovation => 28,
        Action::ImmaculateMend => 29,
        Action::TrainedPerfection => 30,
        Action::ComboStandardTouch => 31,
        Action::ComboAdvancedTouch => 32,
    }
}

/// The action that a bit of an [`ActionMask`] stands for.
pub open spec fn action_at(i: u64) -> Action {
    match i {
        0 => Action::BasicSynthesis,
        1 => Action::BasicTouch,
        2 => Action::MasterMend,
        3 => Action::Observe,
        4 => Action::TricksOfTheTrade,
        5 => Action::WasteNot,
        6 => Action::Veneration,
        7 => Action::StandardTouch,
        8 => Action::GreatStrides,
        9 => Action::Innovation,
        10 => Action::WasteNot2,
        11 => Action::ByregotsBlessing,
        12 => Action::PreciseTouch,
        13 => Action::MuscleMemory,
        14 => Action::CarefulSynthesis,
        15 => Action::Manipulation,
        16 => Action::PrudentTouch,
        17 => Action::AdvancedTouch,
        18 => Action::Reflect,
        19 => Action::PreparatoryTouch,
        20 => Action::Groundwork,
        21 => Action::DelicateSynthesis,
        22 => Action::IntensiveSynthesis,
        23 => Action::TrainedEye,
        24 => Action::HeartAndSoul,
        25 => Action::PrudentSynthesis,
        26 => Action::TrainedFinesse,
        27 => Action::RefinedTouch,
        28 => Action::QuickInnovation,
        29 => Action::ImmaculateMend,
        30 => Action::TrainedPerfection,
        31 => Action::ComboStandardTouch,
        _ => Action::ComboAdvancedTouch,
    }
}

/// Each action has a bit of its own, below 64.
pub proof fn lemma_action_index(a: Action)
    ensures
        action_index(a) < 64,
        action_at(action_index(a)) == a,
{
}

/// The bit of `a`, as [`action_index`] gives it.
pub fn action_bit(a: Action) -> (r: u64)
    ensures
        r == action_index(a),
        r < 64,
{
    match a {
        Action::BasicSynthesis => 0,
        Action::BasicTouch => 1,
        Action::MasterMend => 2,
        Action::Observe => 3,
        Action::TricksOfTheTrade => 4,
        Action::WasteNot => 5,
        Action::Veneration => 6,
        Action::StandardTouch => 7,
        Action::GreatStrides => 8,
        Action::Innovation => 9,
        Action::WasteNot2 => 10,
        Action::ByregotsBlessing => 11,
        Action::PreciseTouch => 12,
        Action::MuscleMemory => 13,
        Action::CarefulSynthesis => 14,
        Action::Manipulation => 15,
        Action::PrudentTouch => 16,
        Action::AdvancedTouch => 17,
        Action::Reflect => 18,
        Action::PreparatoryTouch => 19,
        Action::Groundwork => 20,
        Action::DelicateSynthesis => 21,
        Action::IntensiveSynthesis => 22,
        Action::TrainedEye => 23,
        Action::HeartAndSoul => 24,
        Action::PrudentSynthesis => 25,
        Action::TrainedFinesse => 26,
        Action::RefinedTouch => 27,
        Action::QuickInnovation => 28,
        Action::ImmaculateMend => 29,
        Action::TrainedPerfection => 30,
        Action::ComboStandardTouch => 31,
        Action::ComboAdvancedTouch => 32,
    }
}

/// Whether bit `i` of `m` is set.
pub open spec fn has_bit(m: u64, i: u64) -> bool {
    (m >> i) & 1u64 == 1u64
}

proof fn lemma_bits(m: u64, i: u64, j: u64)
    requires
        i < 64,
        j < 64,
    ensures
        has_bit(m & !(1u64 << i), j) == (has_bit(m, j) && i != j),
        has_bit(m | (1u64 << i), j) == (has_bit(m, j) || i == j),
        !has_bit(0u64, j),
{
    assert(has_bit(m & !(1u64 << i), j) == (has_bit(m, j) && i != j)) by (bit_vector)
        requires
            i < 64,
            j < 64,
    ;
    assert(has_bit(m | (1u64 << i), j) == (has_bit(m, j) || i == j)) by (bit_vector)
        requires
            i < 64,
            j < 64,
    ;
    assert(!has_bit(0u64, j)) by (bit_vector);
}

/// `m` with the bit of `a` cleared.
pub open spec fn mask_without(m: u64, a: Action) -> u64 {
    m & !(1u64 << action_index(a))
}

/// `m` with the bit of `a` set.
pub open spec fn mask_with(m: u64, a: Action) -> u64 {
    m | (1u64 << action_index(a))
}

/// A set of actions, one bit per action.
#[derive(Clone, Copy, Debug, PartialEq, Eq, Hash, Structural)]
pub struct ActionMask {
    pub mask: u64,
}

impl View for ActionMask {
    type V = Set<Action>;

    open spec fn view(&self) -> Set<Action> {
        Set::new(|a: Action| has_bit(self.mask, action_index(a)))
    }
}

impl ActionMask {
    /// The empty set of actions.
    pub fn none() -> (r: Self)
        ensures
            r@ == Set::<Action>::empty(),
            r.mask == 0,
    {
        let r = ActionMask { mask: 0 };
        assert forall|a: Action| !r@.contains(a) by {
            lemma_action_index(a);
            lemma_bits(0, 0, action_index(a));
        }
        assert(r@ =~= Set::<Action>::empty());
        r
    }

    /// The set with `action` added.
    pub fn add(self, action: Action) -> (r: Self)
        ensures
            r@ == self@.insert(action),
            r.mask == mask_with(self.mask, action),
    {
        let i = action_bit(action);
        let r = ActionMask { mask: self.mask | (1u64 << i) };
        assert forall|a: Action| r@.contains(a) == self@.insert(action).contains(a) by {
            lemma_action_index(a);
            lemma_action_index(action);
            lemma_bits(self.mask, i, action_index(a));
        }
        assert(r@ =~= self@.insert(action));
        r
    }

    /// The set with `action` taken out.
    pub fn remove(self, action: Action) -> (r: Self)
        ensures
            r@ == self@.remove(action),
            r.mask == mask_without(self.mask, action),
    {
        let i = action_bit(action);
        let r = ActionMask { mask: self.mask & !(1u64 << i) };
        assert forall|a: Action| r@.contains(a) == self@.remove(action).contains(a) by {
            lemma_action_index(a);
            lemma_action_index(action);
            lemma_bits(self.mask, i, action_index(a));
        }
        assert(r@ =~= self@.remove(action));
        r
    }

    /// Whether `action` is in the set.
    pub fn has(self, action: Action) -> (r: bool)
        ensures
            r == self@.contains(action),
            r == has_bit(self.mask, action_index(action)),
    {
        let i = action_bit(action);
        (self.mask >> i) & 1u64 == 1u64
    }
}

/// The combo that the last action started.
#[derive(Clone, Copy, Debug, PartialEq, Eq, Hash, Structural)]
pub enum Combo {
    NoCombo,
    SynthesisBegin,
    BasicTouch,
    StandardTouch,
}

/// An action that can be used once: not at hand, at hand, or in effect.
#[derive(Clone, Copy, Debug, PartialEq, Eq, Hash, Structural)]
pub enum SingleUse {
    Unavailable,
    Available,
    Active,
}

/// The effects in force during a craft, with the steps or stacks left of each.
#[derive(Clone, Copy, Debug, PartialEq, Eq, Hash, Structural)]
pub struct Effects {
    pub inner_quiet: u8,
    pub waste_not: u8,
    pub innovation: u8,
    pub veneration: u8,
    pub great_strides: u8,
    pub muscle_memory: u8,
    pub manipulation: u8,
    pub trained_perfection: SingleUse,
    pub heart_and_soul: SingleUse,
    pub quick_innovation_used: bool,
    pub guard: u8,
}

/// The state of a craft.
#[derive(Clone, Copy, Debug, PartialEq, Eq, Hash, Structural)]
pub struct SimulationState {
    pub cp: i16,
    pub durability: i8,
    pub progress: u32,
    pub quality: u32,
    pub unreliable_quality: u32,
    pub effects: Effects,
    pub combo: Combo,
}

} // verus!
