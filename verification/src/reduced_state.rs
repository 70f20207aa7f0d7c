use vstd::prelude::*;

use crate::sim::{
    action_index, has_bit, mask_without, Action, ActionMask, Combo, Effects, SimulationState,
    SingleUse,
};

verus! {

/// The part of a craft's state that a lower bound on the remaining steps looks at,
/// with CP left out.
#[derive(Clone, Copy, Debug, PartialEq, Eq, Hash, Structural)]
pub struct ReducedState {
    pub steps_budget: u8,
    pub progress_only: bool,
    pub durability: i8,
    pub combo: Combo,
    pub effects: Effects,
}

/// The smaller of two step counts.
pub open spec fn min_u8(a: u8, b: u8) -> u8 {
    if a <= b {
        a
    } else {
        b
    }
}

/// With no CP cost, a Standard Touch combo gains nothing over plain Advanced
/// Touch, so it is dropped; the other combos stay.
pub open spec fn reduced_combo(combo: Combo) -> Combo {
    match combo {
        Combo::StandardTouch => Combo::NoCombo,
        _ => combo,
    }
}

/// Trained Perfection that is only at hand is treated as gone; one in effect stays.
pub open spec fn reduced_trained_perfection(t: SingleUse) -> SingleUse {
    match t {
        SingleUse::Active => SingleUse::Active,
        _ => SingleUse::Unavailable,
    }
}

/// The durability that a state's Manipulation will still restore, added to its
/// durability.
pub open spec fn effective_durability(state: SimulationState) -> int {
    state.durability + 5 * (state.effects.manipulation as i8)
}

/// The effects of the reduced state (see [`reduced`]).
pub open spec fn reduced_effects(e: Effects, steps_budget: u8, progress_only: bool) -> Effects {
    let veneration = min_u8(steps_budget, e.veneration);
    let waste_not: u8 = if e.waste_not != 0 {
        8
    } else {
        0
    };
    if progress_only {
        Effects {
            inner_quiet: 0,
            innovation: 0,
            veneration: veneration,
            great_strides: 0,
            waste_not: waste_not,
            manipulation: 0,
            trained_perfection: reduced_trained_perfection(e.trained_perfection),
            quick_innovation_used: true,
            guard: 1,
            ..e
        }
    } else {
        Effects {
            innovation: min_u8(steps_budget, e.innovation),
            veneration: veneration,
            great_strides: if e.great_strides != 0 {
                3
            } else {
                0
            },
            waste_not: waste_not,
            manipulation: 0,
            trained_perfection: reduced_trained_perfection(e.trained_perfection),
            guard: 1,
            ..e
        }
    }
}

/// The reduced state of `state` for a budget of steps: Manipulation turned into
/// durability, buffs cut to the budget, Waste Not and Great Strides widened to
/// their longest, and, when only progress counts, the quality buffs dropped.
pub open spec fn reduced(state: SimulationState, steps_budget: u8, progress_only: bool) -> ReducedState {
    ReducedState {
        steps_budget: steps_budget,
        progress_only: progress_only,
        durability: effective_durability(state) as i8,
        combo: reduced_combo(state.combo),
        effects: reduced_effects(state.effects, steps_budget, progress_only),
    }
}

/// The actions worth trying when CP costs nothing: those of `mask` without the
/// ones that never beat another action of the mask.
pub open spec fn optimized_actions(mask: Set<Action>) -> Set<Action> {
    let s1 = mask.remove(Action::TrainedPerfection).remove(Action::Observe).remove(
        Action::ComboStandardTouch,
    ).remove(Action::ComboAdvancedTouch);
    let s2 = if s1.contains(Action::WasteNot2) {
        s1.remove(Action::WasteNot)
    } else {
        s1
    };
    let s3 = if s2.contains(Action::CarefulSynthesis) {
        s2.remove(Action::BasicSynthesis)
    } else {
        s2
    };
    if s3.contains(Action::AdvancedTouch) {
        s3.remove(Action::StandardTouch)
    } else {
        s3
    }
}

/// The raw mask that optimizing `m` gives: the bits of the dropped actions
/// cleared, the other bits, those of no action included, kept.
pub open spec fn optimized_mask(m: u64) -> u64 {
    let m1 = mask_without(
        mask_without(
            mask_without(mask_without(m, Action::TrainedPerfection), Action::Observe),
            Action::ComboStandardTouch,
        ),
        Action::ComboAdvancedTouch,
    );
    let m2 = if has_bit(m1, action_index(Action::WasteNot2)) {
        mask_without(m1, Action::WasteNot)
    } else {
        m1
    };
    let m3 = if has_bit(m2, action_index(Action::CarefulSynthesis)) {
        mask_without(m2, Action::BasicSynthesis)
    } else {
        m2
    };
    if has_bit(m3, action_index(Action::AdvancedTouch)) {
        mask_without(m3, Action::StandardTouch)
    } else {
        m3
    }
}

/// `optimized_mask` with the bits of the actions written out.
spec fn optimized_bits(m: u64) -> u64 {
    let m1 = m & !(1u64 << 30u64) & !(1u64 << 3u64) & !(1u64 << 31u64) & !(1u64 << 32u64);
    let m2 = if (m1 >> 10u64) & 1u64 == 1u64 {
        m1 & !(1u64 << 5u64)
    } else {
        m1
    };
    let m3 = if (m2 >> 14u64) & 1u64 == 1u64 {
        m2 & !(1u64 << 0u64)
    } else {
        m2
    };
    if (m3 >> 17u64) & 1u64 == 1u64 {
        m3 & !(1u64 << 7u64)
    } else {
        m3
    }
}

proof fn lemma_optimized_bits_idempotent(m: u64)
    ensures
        optimized_bits(optimized_bits(m)) == optimized_bits(m),
{
    assert(optimized_bits(optimized_bits(m)) == optimized_bits(m)) by (bit_vector);
}

/// Optimizing a raw mask twice gives the same mask as optimizing it once, bits of
/// no action included.
pub proof fn lemma_optimized_mask_idempotent(m: u64)
    ensures
        optimized_mask(optimized_mask(m)) == optimized_mask(m),
{
    assert(optimized_mask(m) == optimized_bits(m));
    assert(optimized_mask(optimized_mask(m)) == optimized_bits(optimized_bits(m)));
    lemma_optimized_bits_idempotent(m);
}

/// A state fits in a reduced state when Manipulation's durability, added to the
/// durability, stays within the durability type.
pub open spec fn can_reduce(state: SimulationState) -> bool {
    &&& -128 <= 5 * (state.effects.manipulation as i8) <= 127
    &&& -128 <= effective_durability(state) <= 127
}

impl ReducedState {
    /// The simulation state that a reduced state stands for, with ample CP and no
    /// progress or quality yet.
    pub open spec fn as_state(self) -> SimulationState {
        SimulationState {
            durability: self.durability,
            cp: 1000,
            progress: 0,
            quality: 0,
            unreliable_quality: 0,
            effects: self.effects,
            combo: self.combo,
        }
    }

    /// The same state with no combo.
    pub fn to_non_combo(self) -> (r: Self)
        ensures
            r == (ReducedState { combo: Combo::NoCombo, ..self }),
    {
        Self { combo: Combo::NoCombo, ..self }
    }

    /// Drops the actions that never beat another action of the mask when CP costs
    /// nothing.
    pub fn optimize_action_mask(action_mask: ActionMask) -> (r: ActionMask)
        ensures
            r@ == optimized_actions(action_mask@),
            r.mask == optimized_mask(action_mask.mask),
    {
        let mut action_mask = action_mask;
        action_mask = action_mask.remove(Action::TrainedPerfection);
        // Observe only saves CP
        action_mask = action_mask.remove(Action::Observe);
        // the plain touches are as good as their combo forms when CP is free
        action_mask = action_mask.remove(Action::ComboStandardTouch).remove(
            Action::ComboAdvancedTouch,
        );
        // Waste Not II beats Waste Not when CP is free
        if action_mask.has(Action::WasteNot2) {
            action_mask = action_mask.remove(Action::WasteNot);
        }
        // Careful Synthesis beats Basic Synthesis when CP is free
        if action_mask.has(Action::CarefulSynthesis) {
            action_mask = action_mask.remove(Action::BasicSynthesis);
        }
        // Advanced Touch beats Standard Touch when CP is free
        if action_mask.has(Action::AdvancedTouch) {
            action_mask = action_mask.remove(Action::StandardTouch);
        }
        action_mask
    }

    /// The reduced state of `state` for `steps_budget` steps (see [`reduced`]).
    pub fn from_state(state: SimulationState, steps_budget: u8, progress_only: bool) -> (r: Self)
        requires
            can_reduce(state),
        ensures
            r == reduced(state, steps_budget, progress_only),
            r.durability == effective_durability(state),
    {
        let veneration = if steps_budget <= state.effects.veneration {
            steps_budget
        } else {
            state.effects.veneration
        };
        let waste_not: u8 = if state.effects.waste_not != 0 {
            8
        } else {
            0
        };
        let trained_perfection = match state.effects.trained_perfection {
            SingleUse::Unavailable => SingleUse::Unavailable,
            SingleUse::Available => SingleUse::Unavailable,
            SingleUse::Active => SingleUse::Active,
        };
        let combo = match state.combo {
            Combo::NoCombo => Combo::NoCombo,
            Combo::SynthesisBegin => Combo::SynthesisBegin,
            // Refined Touch has no stand-in, so this combo stays
            Combo::BasicTouch => Combo::BasicTouch,
            // Advanced Touch stands in for its combo form when CP is free
            Combo::StandardTouch => Combo::NoCombo,
        };
        let restored: i8 = 5 * (state.effects.manipulation as i8);
        let durability: i8 = state.durability + restored;
        if progress_only {
            Self {
                steps_budget,
                progress_only,
                durability,
                combo,
                effects: Effects {
                    inner_quiet: 0,
                    innovation: 0,
                    veneration,
                    great_strides: 0,
                    waste_not,
                    manipulation: 0,
                    trained_perfection,
                    quick_innovation_used: true,
                    guard: 1,
                    ..state.effects
                },
            }
        } else {
            let innovation = if steps_budget <= state.effects.innovation {
                steps_budget
            } else {
                state.effects.innovation
            };
            let great_strides: u8 = if state.effects.great_strides != 0 {
                3
            } else {
                0
            };
            Self {
                steps_budget,
                progress_only,
                durability,
                combo,
                effects: Effects {
                    innovation,
                    veneration,
                    great_strides,
                    waste_not,
                    manipulation: 0,
                    trained_perfection,
                    guard: 1,
                    ..state.effects
                },
            }
        }
    }

    /// The simulation state that this reduced state stands for.
    pub fn to_state(self) -> (r: SimulationState)
        ensures
            r == self.as_state(),
    {
        SimulationState {
            durability: self.durability,
            cp: 1000,
            progress: 0,
            quality: 0,
            unreliable_quality: 0,
            effects: self.effects,
            combo: self.combo,
        }
    }
}


/// Reducing a state already reduced changes nothing: the reduced state, turned
/// back into a simulation state and reduced with the same budget and mode, is
/// itself.
pub proof fn lemma_reduced_is_fixed_point(
    state: SimulationState,
    steps_budget: u8,
    progress_only: bool,
)
    requires
        can_reduce(state),
    ensures
        can_reduce(reduced(state, steps_budget, progress_only).as_state()),
        reduced(reduced(state, steps_budget, progress_only).as_state(), steps_budget, progress_only)
            == reduced(state, steps_budget, progress_only),
{
    let r = reduced(state, steps_budget, progress_only);
    assert((0u8 as i8) == 0);
    assert(r.effects.manipulation == 0);
}

/// A reduced state carries no Manipulation and no Standard Touch combo, and its
/// Veneration (and, unless only progress counts, its Innovation) lasts no longer
/// than the budget of steps.
pub proof fn lemma_reduced_bounds(state: SimulationState, steps_budget: u8, progress_only: bool)
    ensures
        ({
            let r = reduced(state, steps_budget, progress_only);
            &&& r.effects.manipulation == 0
            &&& r.combo != Combo::StandardTouch
            &&& r.effects.veneration <= steps_budget
            &&& !progress_only ==> r.effects.innovation <= steps_budget
            &&& progress_only ==> r.effects.inner_quiet == 0 && r.effects.innovation == 0
                && r.effects.great_strides == 0
            &&& r.effects.trained_perfection != SingleUse::Available
        }),
{
}

/// Dropping actions from a mask only ever drops: what is left was in the mask,
/// and no action that the mask has besides the dropped ones is lost.
pub proof fn lemma_optimized_actions_subset(mask: Set<Action>)
    ensures
        optimized_actions(mask).subset_of(mask),
        forall|a: Action|
            mask.contains(a) && a != Action::TrainedPerfection && a != Action::Observe && a
                != Action::ComboStandardTouch && a != Action::ComboAdvancedTouch && a
                != Action::WasteNot && a != Action::BasicSynthesis && a != Action::StandardTouch
                ==> #[trigger] optimized_actions(mask).contains(a),
{
}

/// Optimizing a mask twice is optimizing it once, and the result never holds an
/// action together with the action that beats it.
pub proof fn lemma_optimized_actions_idempotent(mask: Set<Action>)
    ensures
        optimized_actions(optimized_actions(mask)) == optimized_actions(mask),
        !optimized_actions(mask).contains(Action::TrainedPerfection),
        !optimized_actions(mask).contains(Action::Observe),
        !optimized_actions(mask).contains(Action::ComboStandardTouch),
        !optimized_actions(mask).contains(Action::ComboAdvancedTouch),
        optimized_actions(mask).contains(Action::WasteNot2) ==> !optimized_actions(mask).contains(
            Action::WasteNot,
        ),
        optimized_actions(mask).contains(Action::CarefulSynthesis) ==> !optimized_actions(
            mask,
        ).contains(Action::BasicSynthesis),
        optimized_actions(mask).contains(Action::AdvancedTouch) ==> !optimized_actions(
            mask,
        ).contains(Action::StandardTouch),
{
    assert(optimized_actions(optimized_actions(mask)) =~= optimized_actions(mask));
}

/// What a reduced state keeps of the state: in both modes Muscle Memory and Heart
/// and Soul are left as they were, as are the steps budget and the mode; when
/// quality counts too, Inner Quiet and the use of Quick Innovation are kept; a
/// combo other than Standard Touch is kept.
pub proof fn lemma_reduced_keeps(state: SimulationState, steps_budget: u8, progress_only: bool)
    ensures
        ({
            let r = reduced(state, steps_budget, progress_only);
            &&& r.steps_budget == steps_budget
            &&& r.progress_only == progress_only
            &&& r.effects.muscle_memory == state.effects.muscle_memory
            &&& r.effects.heart_and_soul == state.effects.heart_and_soul
            &&& !progress_only ==> r.effects.inner_quiet == state.effects.inner_quiet
            &&& !progress_only ==> r.effects.quick_innovation_used
                == state.effects.quick_innovation_used
            &&& state.combo != Combo::StandardTouch ==> r.combo == state.combo
            &&& (state.effects.trained_perfection == SingleUse::Active) == (
            r.effects.trained_perfection == SingleUse::Active)
            &&& (state.effects.waste_not != 0) == (r.effects.waste_not == 8)
            &&& (state.effects.waste_not == 0) == (r.effects.waste_not == 0)
            &&& state.effects.veneration <= steps_budget ==> r.effects.veneration
                == state.effects.veneration
            &&& state.effects.veneration > steps_budget ==> r.effects.veneration == steps_budget
            &&& !progress_only && state.effects.innovation <= steps_budget ==> r.effects.innovation
                == state.effects.innovation
            &&& !progress_only && state.effects.innovation > steps_budget ==> r.effects.innovation
                == steps_budget
            &&& !progress_only ==> ((state.effects.great_strides != 0) == (r.effects.great_strides
                == 3))
            &&& !progress_only ==> ((state.effects.great_strides == 0) == (r.effects.great_strides
                == 0))
            &&& progress_only ==> r.effects.quick_innovation_used
            &&& r.effects.guard == 1
            &&& state.combo == Combo::StandardTouch ==> r.combo == Combo::NoCombo
            &&& can_reduce(state) && state.effects.manipulation <= 127 ==> r.durability
                == state.durability + 5 * state.effects.manipulation
        }),
{
    if can_reduce(state) && state.effects.manipulation <= 127 {
        assert((state.effects.manipulation as i8) == state.effects.manipulation);
    }
}

/// Exactly which actions the pruning keeps: Trained Perfection, Observe and the
/// combo touches never; Waste Not, Basic Synthesis and Standard Touch exactly when
/// they are in the mask and the action that beats them (Waste Not II, Careful
/// Synthesis, Advanced Touch) is too not; every other action exactly when it is in
/// the mask.
pub proof fn lemma_optimized_actions_exactly(mask: Set<Action>, a: Action)
    ensures
        optimized_actions(mask).contains(a) == ({
            if a == Action::TrainedPerfection || a == Action::Observe || a
                == Action::ComboStandardTouch || a == Action::ComboAdvancedTouch {
                false
            } else if a == Action::WasteNot {
                mask.contains(a) && !mask.contains(Action::WasteNot2)
            } else if a == Action::BasicSynthesis {
                mask.contains(a) && !mask.contains(Action::CarefulSynthesis)
            } else if a == Action::StandardTouch {
                mask.contains(a) && !mask.contains(Action::AdvancedTouch)
            } else {
                mask.contains(a)
            }
        }),
{
}

/// Pruning a raw mask leaves every bit that stands for no action as it was.
pub proof fn lemma_optimized_mask_keeps_other_bits(m: u64, j: u64)
    requires
        33 <= j < 64,
    ensures
        has_bit(optimized_mask(m), j) == has_bit(m, j),
{
    assert(optimized_mask(m) == optimized_bits(m));
    assert(has_bit(optimized_bits(m), j) == has_bit(m, j)) by (bit_vector)
        requires
            33 <= j < 64,
    ;
}

} // verus!
