//! The fighter states: one payload type per state, the closed union over them, and the
//! set of states that a fighter holds at once.
use vstd::prelude::*;

use crate::geometry::Vec2;

verus! {

/// A one-shot countdown in milliseconds.
#[derive(Clone, Copy, Debug, PartialEq, Eq, Structural)]
pub struct Timer {
    pub duration_ms: u64,
    pub elapsed_ms: u64,
}

impl Timer {
    pub open spec fn wf(&self) -> bool {
        self.elapsed_ms <= self.duration_ms
    }

    pub fn from_millis(duration_ms: u64) -> (r: Timer)
        ensures
            r.duration_ms == duration_ms,
            r.elapsed_ms == 0,
            r.wf(),
    {
        Timer { duration_ms, elapsed_ms: 0 }
    }

    pub fn finished(&self) -> (r: bool)
        ensures
            r == (self.elapsed_ms >= self.duration_ms),
    {
        self.elapsed_ms >= self.duration_ms
    }

    /// Advances the timer, stopping at its duration.
    pub fn tick(&mut self, delta_ms: u64)
        requires
            old(self).wf(),
        ensures
            final(self).wf(),
            final(self).duration_ms == old(self).duration_ms,
            final(self).elapsed_ms == if old(self).elapsed_ms + delta_ms >= old(
                self,
            ).duration_ms {
                old(self).duration_ms as int
            } else {
                old(self).elapsed_ms + delta_ms
            },
    {
        if delta_ms >= self.duration_ms - self.elapsed_ms {
            self.elapsed_ms = self.duration_ms;
        } else {
            self.elapsed_ms = self.elapsed_ms + delta_ms;
        }
    }

    /// Starts the countdown again.
    pub fn reset(&mut self)
        ensures
            final(self).duration_ms == old(self).duration_ms,
            final(self).elapsed_ms == 0,
    {
        self.elapsed_ms = 0;
    }
}

/// The animation clips that the states play.
#[derive(Clone, Copy, Debug, PartialEq, Eq, Structural)]
pub enum Clip {
    Idle,
    Running,
    Attacking,
    Chaining,
    Followup,
    Slashing,
    Shooting,
    BombThrow,
    Hitstun,
    KnockedLeft,
    KnockedRight,
    Dying,
}

/// The name of a clip in the fighters' animation metadata.
pub open spec fn clip_name(c: Clip) -> Seq<char> {
    match c {
        Clip::Idle => "idle"@,
        Clip::Running => "running"@,
        Clip::Attacking => "attacking"@,
        Clip::Chaining => "chaining"@,
        Clip::Followup => "followup"@,
        Clip::Slashing => "slashing"@,
        Clip::Shooting => "shooting"@,
        Clip::BombThrow => "bomb_throw"@,
        Clip::Hitstun => "hitstun"@,
        Clip::KnockedLeft => "knocked_left"@,
        Clip::KnockedRight => "knocked_right"@,
        Clip::Dying => "dying"@,
    }
}

impl Clip {
    /// The clip's name in the fighter's animation metadata.
    pub fn name(&self) -> (r: &'static str)
        ensures
            r@ == clip_name(*self),
    {
        match self {
            Clip::Idle => "idle",
            Clip::Running => "running",
            Clip::Attacking => "attacking",
            Clip::Chaining => "chaining",
            Clip::Followup => "followup",
            Clip::Slashing => "slashing",
            Clip::Shooting => "shooting",
            Clip::BombThrow => "bomb_throw",
            Clip::Hitstun => "hitstun",
            Clip::KnockedLeft => "knocked_left",
            Clip::KnockedRight => "knocked_right",
            Clip::Dying => "dying",
        }
    }
}

/// The fighter stands still.
#[derive(Clone, Copy, Debug, PartialEq, Eq, Structural)]
pub struct Idling;

/// The fighter walks with a requested velocity.
#[derive(Clone, Copy, Debug, PartialEq, Eq, Structural)]
pub struct Moving {
    pub velocity: Vec2,
}

/// The fighter throws what it carries (additive, lasts one tick).
#[derive(Clone, Copy, Debug, PartialEq, Eq, Structural)]
pub struct Throwing;

/// The fighter tries to pick an item off the ground (additive, lasts one tick).
#[derive(Clone, Copy, Debug, PartialEq, Eq, Structural)]
pub struct Grabbing;

/// A jumping attack.
#[derive(Clone, Copy, Debug, PartialEq, Eq, Structural)]
pub struct Flopping {
    /// The height at which the attack started, restored on landing.
    pub start_y: i64,
    pub has_started: bool,
    pub is_finished: bool,
}

/// The boss's jumping slam.
#[derive(Clone, Copy, Debug, PartialEq, Eq, Structural)]
pub struct GroundSlam {
    /// The height at which the attack started, restored on landing.
    pub start_y: i64,
    pub has_started: bool,
    pub is_finished: bool,
}

/// The boss throws two bombs in one activation.
#[derive(Clone, Copy, Debug, PartialEq, Eq, Structural)]
pub struct BossBombThrow {
    pub has_started: bool,
    pub is_finished: bool,
    /// Toggled by each bomb: the first leaves at the startup frame, the second at the
    /// active frame.
    pub thrown: bool,
}

#[derive(Clone, Copy, Debug, PartialEq, Eq, Structural)]
pub struct Punching {
    pub has_started: bool,
    pub is_finished: bool,
}

/// A combo of linked hits.
#[derive(Clone, Copy, Debug, PartialEq, Eq, Structural)]
pub struct Chaining {
    pub has_started: bool,
    /// Set by the input when the player asks for the next hit.
    pub continue_chain: bool,
    /// Set once the current hit is past its active frame.
    pub can_extend: bool,
    pub transition_to_final: bool,
    pub transition_to_idle: bool,
    pub link: u32,
}

impl Chaining {
    /// The link count stays within the combo, and below its length until the finisher is
    /// flagged.
    pub open spec fn wf(&self) -> bool {
        self.link <= CHAIN_LENGTH && (!self.transition_to_final ==> self.link < CHAIN_LENGTH)
    }

    /// A combo that has not thrown its first hit yet.
    pub fn new() -> (r: Chaining)
        ensures
            r.wf(),
            !r.has_started,
            !r.continue_chain,
            !r.can_extend,
            !r.transition_to_final,
            !r.transition_to_idle,
            r.link == 0,
    {
        Chaining {
            has_started: false,
            continue_chain: false,
            can_extend: false,
            transition_to_final: false,
            transition_to_idle: false,
            link: 0,
        }
    }
}

/// A swing of an equipped melee weapon.
#[derive(Clone, Copy, Debug, PartialEq, Eq, Structural)]
pub struct MeleeAttacking {
    pub has_started: bool,
    pub is_finished: bool,
}

/// A shot of an equipped projectile weapon.
#[derive(Clone, Copy, Debug, PartialEq, Eq, Structural)]
pub struct Shooting {
    pub has_started: bool,
    pub is_finished: bool,
    pub spawned_bullet: bool,
}

/// An enemy throws its projectile item.
#[derive(Clone, Copy, Debug, PartialEq, Eq, Structural)]
pub struct ProjectileAttacking {
    pub has_started: bool,
    pub is_finished: bool,
    pub thrown: bool,
}

/// The fighter holds an item over its head (additive).
#[derive(Clone, Copy, Debug, PartialEq, Eq, Structural)]
pub struct Holding;

/// The fighter is knocked back.
#[derive(Clone, Copy, Debug, PartialEq, Eq, Structural)]
pub struct HitStun {
    pub pushback: Vec2,
    pub timer: Timer,
}

/// The fighter plays its last animation and is then removed.
#[derive(Clone, Copy, Debug, PartialEq, Eq, Structural)]
pub struct Dying;

/// Marks an item that a fighter holds over its head.
#[derive(Clone, Copy, Debug, PartialEq, Eq, Structural)]
pub struct BeingHeld;

pub const IDLING_PRIORITY: i32 = 0;
pub const MOVING_PRIORITY: i32 = 10;
pub const THROWING_PRIORITY: i32 = 15;
pub const GRABBING_PRIORITY: i32 = 15;
pub const ATTACK_PRIORITY: i32 = 30;
pub const HOLDING_PRIORITY: i32 = 35;
pub const HITSTUN_PRIORITY: i32 = 40;
pub const DYING_PRIORITY: i32 = 1000;

/// Number of hits in a full chain combo.
pub const CHAIN_LENGTH: u32 = 2;

/// A fighter state with its payload.
#[derive(Clone, Copy, Debug, PartialEq, Eq, Structural)]
pub enum FighterState {
    Idling(Idling),
    Moving(Moving),
    Throwing(Throwing),
    Grabbing(Grabbing),
    Flopping(Flopping),
    GroundSlam(GroundSlam),
    BossBombThrow(BossBombThrow),
    Punching(Punching),
    Chaining(Chaining),
    MeleeAttacking(MeleeAttacking),
    Shooting(Shooting),
    ProjectileAttacking(ProjectileAttacking),
    Holding(Holding),
    HitStun(HitStun),
    Dying(Dying),
}

impl FighterState {
    /// The state's place in the arbitration order: higher preempts lower.
    pub open spec fn spec_priority(&self) -> i32 {
        match self {
            FighterState::Idling(_) => IDLING_PRIORITY,
            FighterState::Moving(_) => MOVING_PRIORITY,
            FighterState::Throwing(_) => THROWING_PRIORITY,
            FighterState::Grabbing(_) => GRABBING_PRIORITY,
            FighterState::Holding(_) => HOLDING_PRIORITY,
            FighterState::HitStun(_) => HITSTUN_PRIORITY,
            FighterState::Dying(_) => DYING_PRIORITY,
            _ => ATTACK_PRIORITY,
        }
    }

    /// States that stack on top of the one current state instead of replacing it.
    pub open spec fn spec_is_additive(&self) -> bool {
        match self {
            FighterState::Throwing(_) | FighterState::Grabbing(_) | FighterState::Holding(_) => true,
            _ => false,
        }
    }

    /// The payload is consistent: a combo's link count within its length, a stun's timer
    /// within its duration.
    pub open spec fn spec_payload_ok(&self) -> bool {
        match self {
            FighterState::Chaining(c) => c.wf(),
            FighterState::HitStun(h) => h.timer.wf(),
            _ => true,
        }
    }

    pub fn priority(&self) -> (r: i32)
        ensures
            r == self.spec_priority(),
    {
        match self {
            FighterState::Idling(_) => IDLING_PRIORITY,
            FighterState::Moving(_) => MOVING_PRIORITY,
            FighterState::Throwing(_) => THROWING_PRIORITY,
            FighterState::Grabbing(_) => GRABBING_PRIORITY,
            FighterState::Holding(_) => HOLDING_PRIORITY,
            FighterState::HitStun(_) => HITSTUN_PRIORITY,
            FighterState::Dying(_) => DYING_PRIORITY,
            _ => ATTACK_PRIORITY,
        }
    }

    pub fn is_additive(&self) -> (r: bool)
        ensures
            r == self.spec_is_additive(),
    {
        match self {
            FighterState::Throwing(_) | FighterState::Grabbing(_) | FighterState::Holding(_) => true,
            _ => false,
        }
    }
}

/// The states a fighter holds: exactly one current (non-additive) state, and the additive
/// ones that stack on it.
#[derive(Clone, Copy, Debug, PartialEq, Eq, Structural)]
pub struct FighterStates {
    pub current: FighterState,
    pub throwing: bool,
    pub grabbing: bool,
    pub holding: bool,
}

impl FighterStates {
    pub open spec fn wf(&self) -> bool {
        !self.current.spec_is_additive() && self.current.spec_payload_ok()
    }

    pub open spec fn spec_new() -> FighterStates {
        FighterStates {
            current: FighterState::Idling(Idling),
            throwing: false,
            grabbing: false,
            holding: false,
        }
    }

    /// A fighter that idles and holds no additive state.
    pub fn new() -> (r: FighterStates)
        ensures
            r == FighterStates::spec_new(),
            r.wf(),
    {
        FighterStates {
            current: FighterState::Idling(Idling),
            throwing: false,
            grabbing: false,
            holding: false,
        }
    }
}

} // verus!
