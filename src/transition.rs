//! The transition step of a tick: resolve the pending intents against the current state,
//! then, if nothing replaced it, apply the state's own exit rule.
use vstd::prelude::*;

use crate::intents::{resolved, winner, StateTransitionIntents};
use crate::state::{Flopping, FighterState, FighterStates, Idling};

verus! {

/// Idling, once `done`.
pub open spec fn idle_when(done: bool) -> Option<FighterState> {
    if done {
        Some(FighterState::Idling(Idling))
    } else {
        None
    }
}

/// A flop that has not started: the finisher of a combo.
pub open spec fn finisher() -> FighterState {
    FighterState::Flopping(Flopping { start_y: 0, has_started: false, is_finished: false })
}

/// The state that the current one hands over to on its own, once it is done.
pub open spec fn exit_of(state: FighterState) -> Option<FighterState> {
    match state {
        FighterState::Flopping(s) => idle_when(s.is_finished),
        FighterState::Punching(s) => idle_when(s.is_finished),
        FighterState::GroundSlam(s) => idle_when(s.is_finished),
        FighterState::BossBombThrow(s) => idle_when(s.is_finished),
        FighterState::MeleeAttacking(s) => idle_when(s.is_finished),
        FighterState::Shooting(s) => idle_when(s.is_finished),
        FighterState::ProjectileAttacking(s) => idle_when(s.is_finished),
        FighterState::HitStun(s) => idle_when(s.timer.elapsed_ms >= s.timer.duration_ms),
        FighterState::Chaining(s) => if s.transition_to_final {
            Some(finisher())
        } else {
            idle_when(s.transition_to_idle)
        },
        _ => None,
    }
}

/// The states after the transition step. A dying fighter is past every transition.
pub open spec fn transitioned(
    states: FighterStates,
    s: Seq<crate::intents::StateTransition>,
) -> FighterStates {
    if states.current is Dying {
        states
    } else {
        let prio = states.current.spec_priority();
        let r = resolved(states, s, prio);
        if winner(s, prio) is Some {
            r
        } else {
            match exit_of(states.current) {
                Some(next) => FighterStates { current: next, ..r },
                None => r,
            }
        }
    }
}

fn exit_rule(state: &FighterState) -> (r: Option<FighterState>)
    ensures
        r == exit_of(*state),
{
    let done = match state {
        FighterState::Flopping(s) => s.is_finished,
        FighterState::Punching(s) => s.is_finished,
        FighterState::GroundSlam(s) => s.is_finished,
        FighterState::BossBombThrow(s) => s.is_finished,
        FighterState::MeleeAttacking(s) => s.is_finished,
        FighterState::Shooting(s) => s.is_finished,
        FighterState::ProjectileAttacking(s) => s.is_finished,
        FighterState::HitStun(s) => s.timer.finished(),
        FighterState::Chaining(s) => {
            if s.transition_to_final {
                let flop = Flopping { start_y: 0, has_started: false, is_finished: false };
                return Some(FighterState::Flopping(flop));
            }
            s.transition_to_idle
        },
        _ => false,
    };
    if done {
        Some(FighterState::Idling(Idling))
    } else {
        None
    }
}

/// Runs the transition step of one fighter for one tick. The intent queue is always
/// drained; returns whether the current state changed.
pub fn transition_from_current(
    states: &mut FighterStates,
    intents: &mut StateTransitionIntents,
) -> (changed: bool)
    requires
        old(states).wf(),
        old(intents).wf(),
    ensures
        final(intents)@.len() == 0,
        final(intents).wf(),
        final(states).wf(),
        *final(states) == transitioned(*old(states), old(intents)@),
        changed == (final(states).current != old(states).current || (!(old(states).current is Dying)
            && winner(old(intents)@, old(states).current.spec_priority()) is Some)),
{
    if let FighterState::Dying(_) = states.current {
        intents.clear();
        return false;
    }
    let prio = states.current.priority();
    let before = states.current;
    let replaced = intents.transition_to_higher_priority_states(states, prio);
    if replaced {
        return true;
    }
    match exit_rule(&before) {
        Some(next) => {
            states.current = next;
            true
        },
        None => false,
    }
}

} // verus!

verus! {

/// Movement lasts only while it is asked for: the moving handler leaves a fighter idling, and
/// a transition step from idling in which no intent asks for movement does not move it.
pub proof fn lemma_movement_needs_input(
    states: FighterStates,
    s: Seq<crate::intents::StateTransition>,
)
    requires
        states.current == FighterState::Idling(Idling),
        forall|k: int| 0 <= k < s.len() ==> !((#[trigger] s[k]).state is Moving),
    ensures
        !(transitioned(states, s).current is Moving),
{
    crate::intents::lemma_winner_upto(s, states.current.spec_priority(), s.len());
}

} // verus!
