//! What the handlers share (the animation playhead, the fighter's body, the commands they
//! emit), and the handlers of the states that spawn nothing: idling, moving, hitstun, dying.
use vstd::prelude::*;

use crate::geometry::{mirrored, Facing, Vec2};
use crate::meta::{AttackFrames, AttackMeta};
use crate::state::{Clip, FighterState, FighterStates, HitStun, Idling};

verus! {

/// Bound on coordinates, offsets and speeds (in thousandths), so that sums of a few of
/// them cannot overflow.
pub const COORD_LIMIT: i64 = 0x100_0000_0000;

pub open spec fn coord_ok(v: i64) -> bool {
    -COORD_LIMIT <= v <= COORD_LIMIT
}

pub open spec fn vec_ok(v: Vec2) -> bool {
    coord_ok(v.x) && coord_ok(v.y)
}

/// The playhead of an entity's animation, as the animation system reports it.
#[derive(Clone, Copy, Debug, PartialEq, Eq, Structural)]
pub struct AnimationTrack {
    pub current_clip: Option<Clip>,
    pub current_frame: u32,
    pub repeat: bool,
    pub finished: bool,
}

impl AnimationTrack {
    pub fn new() -> (r: AnimationTrack)
        ensures
            r.current_clip is None,
            r.current_frame == 0,
            !r.finished,
    {
        AnimationTrack { current_clip: None, current_frame: 0, repeat: false, finished: false }
    }

    /// Starts `clip` from its first frame.
    pub fn play(&mut self, clip: Clip, repeat: bool)
        ensures
            *final(self) == played(clip, repeat),
    {
        self.current_clip = Some(clip);
        self.current_frame = 0;
        self.repeat = repeat;
        self.finished = false;
    }

    pub fn is_finished(&self) -> (r: bool)
        ensures
            r == self.finished,
    {
        self.finished
    }

    pub fn is_playing(&self, clip: Clip) -> (r: bool)
        ensures
            r == (self.current_clip == Some(clip)),
    {
        match self.current_clip {
            Some(c) => c == clip,
            None => false,
        }
    }
}

/// A playhead just started on `clip`.
pub open spec fn played(clip: Clip, repeat: bool) -> AnimationTrack {
    AnimationTrack { current_clip: Some(clip), current_frame: 0, repeat, finished: false }
}

/// Where a fighter is and how it moves.
#[derive(Clone, Copy, Debug, PartialEq, Eq, Structural)]
pub struct Body {
    pub position: Vec2,
    pub velocity: Vec2,
    pub facing: Facing,
}

/// The kind of fighter, which decides whom its attacks hit.
#[derive(Clone, Copy, Debug, PartialEq, Eq, Structural)]
pub enum Role {
    Player,
    Enemy,
    /// An enemy with the boss's attacks.
    Boss,
    /// Neither player nor enemy: the attack handlers do not know whom it would hit.
    Unaligned,
}

/// The side an attack is on: a player's attacks hit enemies and breakable items, an
/// enemy's hit players.
#[derive(Clone, Copy, Debug, PartialEq, Eq, Structural)]
pub enum Side {
    Player,
    Enemy,
}

/// Why a handler did nothing this tick.
#[derive(Clone, Copy, Debug, PartialEq, Eq, Structural)]
pub enum Skip {
    /// The metadata it needs is not loaded yet: try again next tick.
    MetadataNotReady,
    /// The fighter is neither player nor enemy.
    UnsupportedFighterRole,
    /// The fighter has no weapon to attack with yet.
    WeaponMissing,
    /// An item's kind is not the one its use needs: a data authoring error.
    KindMismatch,
}

/// An attack hitbox to spawn as a child of the fighter (or of its weapon).
#[derive(Clone, Copy, Debug, PartialEq, Eq, Structural)]
pub struct AttackSpawn {
    pub offset: Vec2,
    pub side: Side,
    pub damage: i32,
    pub pushback: Vec2,
    pub hitstun_duration_ms: u64,
    pub frames: AttackFrames,
}

/// A side effect that a handler asks the entity layer to perform.
#[derive(Clone, Copy, Debug, PartialEq, Eq, Structural)]
pub enum Command {
    /// Spawn an attack hitbox on the fighter.
    SpawnAttack(AttackSpawn),
    /// Spawn an attack hitbox on the fighter's weapon.
    SpawnWeaponAttack(AttackSpawn),
    /// Attach the sound effects of a clip to the fighter.
    PlaySound(Clip),
    /// Attach the sound effects of a clip to the fighter's weapon.
    PlayWeaponSound(Clip),
    /// Throw the item `item` as a projectile from the fighter.
    ThrowProjectile { item: u64, by_enemy: bool },
    /// Spawn a fused bomb of item `item` from the boss.
    SpawnBomb { item: u64, lifetime_ms: u64 },
    /// Spawn the muzzle particles on the fighter's weapon.
    SpawnParticles,
    /// Spawn a bullet with its hitbox, which can itself be hit and broken.
    SpawnBullet { hitbox: AttackSpawn, velocity: Vec2, lifetime_ms: u64 },
    /// Remove the fighter and everything under it.
    Despawn,
}

/// The side of a fighter's attacks, for the roles that attack.
pub open spec fn side_of(role: Role) -> Side {
    if role == Role::Player {
        Side::Player
    } else {
        Side::Enemy
    }
}

/// The hitbox an attack spawns: its offset turned to the facing and lifted to the fighter's
/// collision box, and a horizontal knockback away from the attacker.
pub open spec fn attack_spawn(
    attack: AttackMeta,
    facing: Facing,
    side: Side,
    collision_offset: int,
) -> AttackSpawn {
    AttackSpawn {
        offset: Vec2 {
            x: mirrored(attack.hitbox_offset.x as int, facing) as i64,
            y: (attack.hitbox_offset.y + collision_offset) as i64,
        },
        side,
        damage: attack.damage,
        pushback: Vec2 {
            x: match attack.velocity {
                Some(v) => mirrored(v.x as int, facing) as i64,
                None => 0,
            },
            y: 0,
        },
        hitstun_duration_ms: attack.hitstun_duration_ms,
        frames: attack.frames,
    }
}

/// Offsets and knockback of an attack stay within the coordinate bound.
pub open spec fn attack_ok(attack: AttackMeta) -> bool {
    &&& vec_ok(attack.hitbox_offset)
    &&& vec_ok(attack.hitbox_size)
    &&& match attack.velocity {
        Some(v) => vec_ok(v),
        None => true,
    }
}

pub fn make_attack_spawn(attack: &AttackMeta, facing: Facing, side: Side, collision_offset: i64) -> (r:
    AttackSpawn)
    requires
        attack_ok(*attack),
        coord_ok(collision_offset),
    ensures
        r == attack_spawn(*attack, facing, side, collision_offset as int),
{
    let x = if facing.is_left() {
        -attack.hitbox_offset.x
    } else {
        attack.hitbox_offset.x
    };
    let px = match attack.velocity {
        Some(v) => if facing.is_left() {
            -v.x
        } else {
            v.x
        },
        None => 0,
    };
    AttackSpawn {
        offset: Vec2 { x, y: attack.hitbox_offset.y + collision_offset },
        side,
        damage: attack.damage,
        pushback: Vec2 { x: px, y: 0 },
        hitstun_duration_ms: attack.hitstun_duration_ms,
        frames: attack.frames,
    }
}

/// Idling: play the idle loop (unless it already plays) and stand still.
pub fn idling(animation: &mut AnimationTrack, body: &mut Body)
    ensures
        *final(animation) == if old(animation).current_clip == Some(Clip::Idle) {
            *old(animation)
        } else {
            played(Clip::Idle, true)
        },
        *final(body) == (Body { velocity: Vec2 { x: 0, y: 0 }, ..*old(body) }),
{
    if !animation.is_playing(Clip::Idle) {
        animation.play(Clip::Idle, true);
    }
    body.velocity = Vec2::zero();
}

/// The facing after moving with velocity `v`: toward the movement, unchanged when it is
/// purely vertical.
pub open spec fn facing_after_move(facing: Facing, v: Vec2) -> Facing {
    if v.x > 0 {
        Facing::Right
    } else if v.x < 0 {
        Facing::Left
    } else {
        facing
    }
}

/// Moving: run with the requested velocity, face the way of travel, and fall back to
/// idling at once, so that movement lasts only while the input keeps asking for it.
pub fn moving(states: &mut FighterStates, animation: &mut AnimationTrack, body: &mut Body)
    requires
        old(states).current is Moving,
        old(states).wf(),
    ensures
        final(states).current == FighterState::Idling(Idling),
        *final(states) == (FighterStates { current: FighterState::Idling(Idling), ..*old(states) }),
        final(states).wf(),
        *final(animation) == if old(animation).current_clip == Some(Clip::Running) {
            *old(animation)
        } else {
            played(Clip::Running, true)
        },
        final(body).velocity == old(states).current->Moving_0.velocity,
        final(body).facing == facing_after_move(
            old(body).facing,
            old(states).current->Moving_0.velocity,
        ),
        final(body).position == old(body).position,
{
    if !animation.is_playing(Clip::Running) {
        animation.play(Clip::Running, true);
    }
    if let FighterState::Moving(m) = states.current {
        body.velocity = m.velocity;
        if m.velocity.x > 0 {
            body.facing = Facing::Right;
        } else if m.velocity.x < 0 {
            body.facing = Facing::Left;
        }
    }
    states.current = FighterState::Idling(Idling);
}

/// The clip a hitstun opens with: a plain flinch without knockback, else a knock toward the
/// side the blow pushes to, seen from the fighter's facing.
pub open spec fn hitstun_clip(pushback: Vec2, facing: Facing) -> Clip {
    let is_left = pushback.x < 0;
    let use_left = if facing == Facing::Left {
        !is_left
    } else {
        is_left
    };
    if pushback.x == 0 && pushback.y == 0 {
        Clip::Hitstun
    } else if use_left {
        Clip::KnockedLeft
    } else {
        Clip::KnockedRight
    }
}

/// Hitstun: on its first tick, pick the knockback clip; every tick, run the countdown by
/// `delta_ms` and push the fighter with the blow's velocity.
pub fn hitstun(
    stun: &mut HitStun,
    animation: &mut AnimationTrack,
    body: &mut Body,
    delta_ms: u64,
)
    requires
        old(stun).timer.wf(),
    ensures
        *final(animation) == if old(stun).timer.elapsed_ms == 0 {
            played(hitstun_clip(old(stun).pushback, old(body).facing), false)
        } else {
            *old(animation)
        },
        final(stun).pushback == old(stun).pushback,
        final(stun).timer.wf(),
        final(stun).timer.duration_ms == old(stun).timer.duration_ms,
        final(stun).timer.elapsed_ms == if old(stun).timer.elapsed_ms + delta_ms
            >= old(stun).timer.duration_ms {
            old(stun).timer.duration_ms as int
        } else {
            old(stun).timer.elapsed_ms + delta_ms
        },
        *final(body) == (Body { velocity: old(stun).pushback, ..*old(body) }),
{
    if stun.timer.elapsed_ms == 0 {
        let is_left = stun.pushback.x < 0;
        let use_left = if body.facing.is_left() {
            !is_left
        } else {
            is_left
        };
        let clip = if stun.pushback.is_zero() {
            Clip::Hitstun
        } else if use_left {
            Clip::KnockedLeft
        } else {
            Clip::KnockedRight
        };
        animation.play(clip, false);
    }
    stun.timer.tick(delta_ms);
    body.velocity = stun.pushback;
}

/// Dying: stop and play the dying clip once; returns true once it has played out, when the
/// fighter and everything under it is to be removed.
pub fn dying(animation: &mut AnimationTrack, body: &mut Body) -> (despawn: bool)
    ensures
        old(animation).current_clip != Some(Clip::Dying) ==> {
            &&& *final(animation) == played(Clip::Dying, false)
            &&& *final(body) == (Body { velocity: Vec2 { x: 0, y: 0 }, ..*old(body) })
            &&& !despawn
        },
        old(animation).current_clip == Some(Clip::Dying) ==> {
            &&& *final(animation) == *old(animation)
            &&& *final(body) == *old(body)
            &&& despawn == old(animation).finished
        },
{
    if !animation.is_playing(Clip::Dying) {
        body.velocity = Vec2::zero();
        animation.play(Clip::Dying, false);
        false
    } else {
        animation.is_finished()
    }
}

} // verus!
