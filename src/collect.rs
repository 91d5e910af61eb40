//! The collectors: turn input, damage and health into transition intents.
use vstd::prelude::*;

use crate::geometry::Vec2;
use crate::intents::{StateTransition, StateTransitionIntents};
use crate::meta::AttackName;
use crate::state::{
    Chaining, Dying, FighterState, FighterStates, Flopping, Grabbing, HitStun, MeleeAttacking, Moving,
    Punching, Shooting, Throwing, Timer,
};

verus! {

/// One tick of a player's controls.
#[derive(Clone, Copy, Debug, PartialEq, Eq, Structural)]
pub struct PlayerInput {
    pub attack_just_pressed: bool,
    pub throw_just_pressed: bool,
    pub move_pressed: bool,
    /// The movement stick, each axis clamped to thousandths in `-1000..=1000`.
    pub move_axis: Vec2,
}

/// A hit that landed on a fighter.
#[derive(Clone, Copy, Debug, PartialEq, Eq, Structural)]
pub struct DamageEvent {
    pub damaged_entity: u64,
    pub damage_velocity: Vec2,
    pub hitstun_duration_ms: u64,
}

/// Division that rounds toward zero, as machine division does.
pub open spec fn div_toward_zero(x: int, d: int) -> int {
    if x >= 0 {
        x / d
    } else {
        -((-x) / d)
    }
}

/// One axis of a movement velocity: the stick position (thousandths) times the speed.
pub open spec fn scaled_axis(axis: int, speed: int) -> int {
    div_toward_zero(axis * speed, 1000)
}

pub open spec fn axis_in_range(v: Vec2) -> bool {
    -1000 <= v.x <= 1000 && -1000 <= v.y <= 1000
}

fn scale_axis(axis: i64, speed: i64) -> (r: i64)
    requires
        -1000 <= axis <= 1000,
        speed >= 0,
    ensures
        r == scaled_axis(axis as int, speed as int),
{
    let mag: u64 = if axis >= 0 { axis as u64 } else { (-axis) as u64 };
    assert(mag * speed <= 1000 * speed) by (nonlinear_arith)
        requires
            mag <= 1000,
            speed >= 0,
    ;
    let prod: u128 = mag as u128 * speed as u128;
    let q: u128 = prod / 1000;
    proof {
        assert(mag * speed <= 1000 * speed) by (nonlinear_arith)
            requires mag <= 1000, speed >= 0;
        assert((mag * speed) / 1000 <= speed) by (nonlinear_arith)
            requires mag * speed <= 1000 * speed, speed >= 0;
        if axis < 0 {
            assert(axis * speed == -(mag * speed)) by (nonlinear_arith)
                requires mag == -axis;
        } else {
            assert(axis * speed == mag * speed);
        }
    }
    if axis >= 0 {
        q as i64
    } else {
        -(q as i64)
    }
}

/// The attack state that an attack of the given name starts, if the input can start one.
pub open spec fn attack_state_for(name: AttackName) -> Option<FighterState> {
    match name {
        AttackName::Chain => Some(FighterState::Chaining(Chaining {
            has_started: false,
            continue_chain: false,
            can_extend: false,
            transition_to_final: false,
            transition_to_idle: false,
            link: 0,
        })),
        AttackName::Punch => Some(
            FighterState::Punching(Punching { has_started: false, is_finished: false }),
        ),
        AttackName::Flop => Some(
            FighterState::Flopping(Flopping { start_y: 0, has_started: false, is_finished: false }),
        ),
        AttackName::Melee => Some(
            FighterState::MeleeAttacking(MeleeAttacking { has_started: false, is_finished: false }),
        ),
        AttackName::Projectile => Some(
            FighterState::Shooting(
                Shooting { has_started: false, is_finished: false, spawned_bullet: false },
            ),
        ),
        AttackName::Other => None,
    }
}

fn attack_state(name: AttackName) -> (r: Option<FighterState>)
    ensures
        r == attack_state_for(name),
{
    match name {
        AttackName::Chain => Some(FighterState::Chaining(Chaining {
            has_started: false,
            continue_chain: false,
            can_extend: false,
            transition_to_final: false,
            transition_to_idle: false,
            link: 0,
        })),
        AttackName::Punch => Some(
            FighterState::Punching(Punching { has_started: false, is_finished: false }),
        ),
        AttackName::Flop => Some(
            FighterState::Flopping(Flopping { start_y: 0, has_started: false, is_finished: false }),
        ),
        AttackName::Melee => Some(
            FighterState::MeleeAttacking(MeleeAttacking { has_started: false, is_finished: false }),
        ),
        AttackName::Projectile => Some(
            FighterState::Shooting(
                Shooting { has_started: false, is_finished: false, spawned_bullet: false },
            ),
        ),
        AttackName::Other => None,
    }
}

/// The transition to `state` at its own priority.
pub open spec fn intent_to(state: FighterState) -> StateTransition {
    StateTransition {
        state,
        priority: state.spec_priority(),
        is_additive: state.spec_is_additive(),
    }
}

/// The intents a player's input produces in one tick, in the order they are queued.
pub open spec fn player_intents(
    input: PlayerInput,
    states: FighterStates,
    inventory_occupied: bool,
    movement_speed: int,
    current_attack: AttackName,
) -> Seq<StateTransition> {
    let attack = if input.attack_just_pressed && !states.holding && !(states.current is Chaining) {
        match attack_state_for(current_attack) {
            Some(st) => seq![intent_to(st)],
            None => Seq::empty(),
        }
    } else {
        Seq::empty()
    };
    let throw = if input.throw_just_pressed {
        if inventory_occupied {
            seq![intent_to(FighterState::Throwing(Throwing))]
        } else {
            seq![intent_to(FighterState::Grabbing(Grabbing))]
        }
    } else {
        Seq::empty()
    };
    let moving = if input.move_pressed {
        seq![
            intent_to(
                FighterState::Moving(
                    Moving {
                        velocity: Vec2 {
                            x: scaled_axis(input.move_axis.x as int, movement_speed) as i64,
                            y: scaled_axis(input.move_axis.y as int, movement_speed) as i64,
                        },
                    },
                ),
            ),
        ]
    } else {
        Seq::empty()
    };
    attack + throw + moving
}

/// The current state after the input: a press of attack during a combo asks for its next
/// hit instead of queueing a new attack.
pub open spec fn chain_requested(input: PlayerInput, states: FighterStates) -> FighterStates {
    match states.current {
        FighterState::Chaining(c) => if input.attack_just_pressed && !states.holding {
            FighterStates { current: FighterState::Chaining(Chaining { continue_chain: true, ..c }), ..states }
        } else {
            states
        },
        _ => states,
    }
}

/// Queues what a player's input asks for this tick: the current attack (unless holding an
/// item or in a combo), a throw or a grab, and movement at the fighter's speed.
pub fn collect_player_actions(
    input: &PlayerInput,
    states: &mut FighterStates,
    intents: &mut StateTransitionIntents,
    inventory_occupied: bool,
    movement_speed: i64,
    current_attack: AttackName,
)
    requires
        axis_in_range(input.move_axis),
        movement_speed >= 0,
        old(states).wf(),
        old(intents).wf(),
    ensures
        final(intents)@ == old(intents)@ + player_intents(
            *input,
            *old(states),
            inventory_occupied,
            movement_speed as int,
            current_attack,
        ),
        *final(states) == chain_requested(*input, *old(states)),
        final(states).wf(),
        final(intents).wf(),
{
    let ghost start = intents@;
    let ghost st0 = *states;
    let ghost attack_part = if input.attack_just_pressed && !st0.holding && !(st0.current is Chaining) {
        match attack_state_for(current_attack) {
            Some(st) => seq![intent_to(st)],
            None => Seq::empty(),
        }
    } else {
        Seq::empty()
    };
    if input.attack_just_pressed && !states.holding {
        match states.current {
            FighterState::Chaining(c) => {
                states.current = FighterState::Chaining(Chaining { continue_chain: true, ..c });
            },
            _ => {
                if let Some(st) = attack_state(current_attack) {
                    intents.push_back(StateTransition::to_state(st));
                }
            },
        }
    }
    assert(intents@ == start + attack_part);
    let ghost mid = intents@;
    if input.throw_just_pressed {
        if inventory_occupied {
            intents.push_back(StateTransition::to_state(FighterState::Throwing(Throwing)));
        } else {
            intents.push_back(StateTransition::to_state(FighterState::Grabbing(Grabbing)));
        }
    }
    let ghost mid2 = intents@;
    if input.move_pressed {
        let velocity = Vec2 {
            x: scale_axis(input.move_axis.x, movement_speed),
            y: scale_axis(input.move_axis.y, movement_speed),
        };
        intents.push_back(StateTransition::to_state(FighterState::Moving(Moving { velocity })));
    }
    assert(intents@ == start + player_intents(
        *input,
        st0,
        inventory_occupied,
        movement_speed as int,
        current_attack,
    ));
}

/// The hitstun intent for a damage event.
pub open spec fn hitstun_intent(e: DamageEvent) -> StateTransition {
    intent_to(
        FighterState::HitStun(
            HitStun {
                pushback: e.damage_velocity,
                timer: Timer { duration_ms: e.hitstun_duration_ms, elapsed_ms: 0 },
            },
        ),
    )
}

/// The hitstun intents that `events` queue for `fighter`, in event order: one for each hit
/// on it with a stun longer than zero.
pub open spec fn hitstun_intents(events: Seq<DamageEvent>, fighter: u64) -> Seq<StateTransition>
    decreases events.len(),
{
    if events.len() == 0 {
        Seq::empty()
    } else {
        let prev = hitstun_intents(events.drop_last(), fighter);
        let e = events.last();
        if e.damaged_entity == fighter && e.hitstun_duration_ms != 0 {
            prev.push(hitstun_intent(e))
        } else {
            prev
        }
    }
}

/// Queues a hitstun for each damage event on `fighter` whose stun lasts longer than zero.
pub fn collect_hitstuns(
    fighter: u64,
    events: &Vec<DamageEvent>,
    intents: &mut StateTransitionIntents,
)
    requires
        old(intents).wf(),
    ensures
        final(intents)@ == old(intents)@ + hitstun_intents(events@, fighter),
        final(intents).wf(),
{
    let ghost start = intents@;
    let mut i: usize = 0;
    while i < events.len()
        invariant
            i <= events@.len(),
            intents.wf(),
            intents@ == start + hitstun_intents(events@.subrange(0, i as int), fighter),
        decreases events@.len() - i,
    {
        let e = events[i];
        assert(events@.subrange(0, i as int + 1).drop_last() == events@.subrange(0, i as int));
        if e.damaged_entity == fighter && e.hitstun_duration_ms != 0 {
            let t = StateTransition::to_state(
                FighterState::HitStun(
                    HitStun { pushback: e.damage_velocity, timer: Timer::from_millis(e.hitstun_duration_ms) },
                ),
            );
            intents.push_back(t);
        }
        i = i + 1;
    }
    assert(events@.subrange(0, events@.len() as int) == events@);
}

/// Queues a death for a fighter whose health is spent.
pub fn collect_fighter_eliminations(health: i64, intents: &mut StateTransitionIntents)
    requires
        old(intents).wf(),
    ensures
        final(intents)@ == if health <= 0 {
            old(intents)@.push(intent_to(FighterState::Dying(Dying)))
        } else {
            old(intents)@
        },
        final(intents).wf(),
{
    if health <= 0 {
        intents.push_back(StateTransition::to_state(FighterState::Dying(Dying)));
    }
}

/// A stun of zero length queues nothing: every hitstun intent that damage produces carries
/// a stun longer than zero, and events whose stun is zero add no intent.
pub proof fn lemma_zero_hitstun_ignored(events: Seq<DamageEvent>, fighter: u64)
    ensures
        forall|k: int|
            0 <= k < hitstun_intents(events, fighter).len() ==> {
                let t = #[trigger] hitstun_intents(events, fighter)[k];
                &&& t.state is HitStun
                &&& t.state->HitStun_0.timer.duration_ms > 0
            },
        (forall|i: int| 0 <= i < events.len() ==> (#[trigger] events[i]).hitstun_duration_ms == 0)
            ==> hitstun_intents(events, fighter).len() == 0,
    decreases events.len(),
{
    if events.len() > 0 {
        lemma_zero_hitstun_ignored(events.drop_last(), fighter);
        if forall|i: int| 0 <= i < events.len() ==> (#[trigger] events[i]).hitstun_duration_ms == 0 {
            assert forall|i: int| 0 <= i < events.drop_last().len() implies (
            #[trigger] events.drop_last()[i]).hitstun_duration_ms == 0 by {
                assert(events.drop_last()[i] == events[i]);
            }
        }
    }
}

} // verus!
