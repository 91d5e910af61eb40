//! Equipped weapons and the attack states that use them: a melee swing, and a shot gated by
//! ammo and a cooldown.
use vstd::prelude::*;

use crate::geometry::{mirrored, Vec2};
use crate::handlers::{
    attack_ok, attack_spawn, coord_ok, played, side_of, AnimationTrack, AttackSpawn, Body,
    Command, Role, Side, Skip,
};
use crate::meta::{AttackMeta, GunMeta};
use crate::state::{Clip, MeleeAttacking, Shooting, Timer};

verus! {

/// A melee weapon in a fighter's hands.
#[derive(Clone, Copy, Debug, PartialEq, Eq, Structural)]
pub struct MeleeWeapon {
    pub attack: AttackMeta,
    /// The weapon has sound effects for its swing.
    pub swing_sound: bool,
}

/// A projectile weapon in a fighter's hands.
#[derive(Clone, Copy, Debug, PartialEq, Eq, Structural)]
pub struct ProjectileWeapon {
    pub attack: AttackMeta,
    /// The weapon has sound effects for its shot.
    pub shot_sound: bool,
    pub ammo: u32,
    pub bullet_velocity: i64,
    pub bullet_lifetime_ms: u64,
    /// Time between shots; a freshly equipped weapon can fire at once.
    pub shoot_delay: Timer,
}

impl ProjectileWeapon {
    /// The weapon as it is equipped from its item: full ammo, ready to fire.
    pub fn equip(attack: AttackMeta, gun: GunMeta, shot_sound: bool) -> (r: ProjectileWeapon)
        ensures
            r == (ProjectileWeapon {
                attack,
                shot_sound,
                ammo: gun.ammo,
                bullet_velocity: gun.bullet_velocity,
                bullet_lifetime_ms: gun.bullet_lifetime_ms,
                shoot_delay: Timer { duration_ms: gun.shoot_delay_ms, elapsed_ms: gun.shoot_delay_ms },
            }),
            r.shoot_delay.wf(),
    {
        ProjectileWeapon {
            attack,
            shot_sound,
            ammo: gun.ammo,
            bullet_velocity: gun.bullet_velocity,
            bullet_lifetime_ms: gun.bullet_lifetime_ms,
            shoot_delay: Timer { duration_ms: gun.shoot_delay_ms, elapsed_ms: gun.shoot_delay_ms },
        }
    }
}

/// Marks the muzzle particles of a shot.
#[derive(Clone, Copy, Debug, PartialEq, Eq, Structural)]
pub struct Particle;

/// Muzzle particles are removed once their clip has played out.
pub fn particle_expired(animation: &AnimationTrack) -> (r: bool)
    ensures
        r == animation.finished,
{
    animation.is_finished()
}

/// The hitbox of a melee swing, placed on the weapon as the attack describes it.
pub open spec fn swing_spawn(attack: AttackMeta, body: Body, side: Side) -> AttackSpawn {
    AttackSpawn { offset: attack.hitbox_offset, ..attack_spawn(attack, body.facing, side, 0) }
}

/// One tick of a melee swing, as `melee_attacking` performs it: the payload goes from `s0` to `s1`, the
/// playhead from `a0` to `a1`, the body from `b0` to `b1`, and `r` is what it returns.
pub open spec fn melee_tick(
    s0: MeleeAttacking,
    s1: MeleeAttacking,
    a0: AnimationTrack,
    a1: AnimationTrack,
    b0: Body,
    b1: Body,
    role: Role,
    attack: AttackMeta,
    weapon: Option<MeleeWeapon>,
    r: Result<Vec<Command>, Skip>,
) -> bool {
    &&& role == Role::Unaligned ==> r == Err::<Vec<Command>, Skip>(Skip::UnsupportedFighterRole)
    &&& role != Role::Unaligned && weapon is None ==> r == Err::<Vec<Command>, Skip>(
        Skip::WeaponMissing,
    )
    &&& r is Err ==> s1 == s0 && a1 == a0 && b1 == b0
    &&& role != Role::Unaligned && weapon is Some ==> {
        let w = weapon->0;
        let track = if s0.has_started {
            a0
        } else {
            played(Clip::Slashing, false)
        };
        &&& r is Ok
        &&& r->Ok_0@ =~= if s0.has_started {
            Seq::empty()
        } else if w.swing_sound {
            seq![
                Command::SpawnWeaponAttack(swing_spawn(attack, b0, side_of(role))),
                Command::PlayWeaponSound(Clip::Slashing),
            ]
        } else {
            seq![Command::SpawnWeaponAttack(swing_spawn(attack, b0, side_of(role)))]
        }
        &&& a1 == track
        &&& s1 == (MeleeAttacking {
                has_started: true,
                is_finished: s0.is_finished || track.finished,
        })
        &&& b1 == (Body { velocity: Vec2 { x: 0, y: 0 }, ..b0 })
    }
}

/// A melee swing: on the first tick the weapon plays its slash and carries the hitbox; the
/// fighter stands still until the weapon's clip ends.
pub fn melee_attacking(
    melee: &mut MeleeAttacking,
    weapon_animation: &mut AnimationTrack,
    body: &mut Body,
    role: Role,
    attack: &AttackMeta,
    weapon: Option<MeleeWeapon>,
) -> (r: Result<Vec<Command>, Skip>)
    requires
        attack_ok(*attack),
    ensures
        melee_tick(
            *old(melee),
            *final(melee),
            *old(weapon_animation),
            *final(weapon_animation),
            *old(body),
            *final(body),
            role,
            *attack,
            weapon,
            r,
        ),

{
    if role == Role::Unaligned {
        return Err(Skip::UnsupportedFighterRole);
    }
    let w = match weapon {
        Some(w) => w,
        None => {
            return Err(Skip::WeaponMissing);
        },
    };
    let side = if role == Role::Player { Side::Player } else { Side::Enemy };
    let mut out: Vec<Command> = Vec::new();
    if !melee.has_started {
        melee.has_started = true;
        weapon_animation.play(Clip::Slashing, false);
        let px = match attack.velocity {
            Some(v) => if body.facing.is_left() {
                -v.x
            } else {
                v.x
            },
            None => 0,
        };
        let spawn = AttackSpawn {
            offset: attack.hitbox_offset,
            side,
            damage: attack.damage,
            pushback: Vec2 { x: px, y: 0 },
            hitstun_duration_ms: attack.hitstun_duration_ms,
            frames: attack.frames,
        };
        out.push(Command::SpawnWeaponAttack(spawn));
        if w.swing_sound {
            out.push(Command::PlayWeaponSound(Clip::Slashing));
        }
    }
    body.velocity = Vec2::zero();
    if weapon_animation.is_finished() {
        melee.is_finished = true;
    }
    Ok(out)
}

/// The hitbox a bullet carries: the attack's hitbox and knockback turned to the facing.
pub open spec fn bullet_spawn(attack: AttackMeta, body: Body, side: Side) -> AttackSpawn {
    AttackSpawn {
        offset: Vec2 {
            x: mirrored(attack.hitbox_offset.x as int, body.facing) as i64,
            y: attack.hitbox_offset.y,
        },
        side,
        damage: attack.damage,
        pushback: match attack.velocity {
            Some(v) => Vec2 { x: mirrored(v.x as int, body.facing) as i64, y: v.y },
            None => Vec2 { x: 0, y: 0 },
        },
        hitstun_duration_ms: attack.hitstun_duration_ms,
        frames: attack.frames,
    }
}

/// The shot starts this tick: not yet started, ammo left, cooldown over.
pub open spec fn shot_starts(s: Shooting, w: ProjectileWeapon, delay: Timer) -> bool {
    !s.has_started && w.ammo > 0 && delay.elapsed_ms >= delay.duration_ms
}

/// The delay timer after `delta_ms`, as `Timer::tick` leaves it.
pub open spec fn ticked(t: Timer, delta_ms: u64) -> Timer {
    Timer {
        duration_ms: t.duration_ms,
        elapsed_ms: if t.elapsed_ms + delta_ms >= t.duration_ms {
            t.duration_ms
        } else {
            (t.elapsed_ms + delta_ms) as u64
        },
    }
}

/// One tick of a shot, as `shooting` performs it: the payload goes from `s0` to `s1`, the
/// playhead from `a0` to `a1`, the body from `b0` to `b1`, and `r` is what it returns.
pub open spec fn shot_tick(
    s0: Shooting,
    s1: Shooting,
    a0: AnimationTrack,
    a1: AnimationTrack,
    b0: Body,
    b1: Body,
    role: Role,
    attack: AttackMeta,
    w0: Option<ProjectileWeapon>,
    w1: Option<ProjectileWeapon>,
    delta_ms: u64,
    r: Result<Vec<Command>, Skip>,
) -> bool {
    &&& role == Role::Unaligned ==> r == Err::<Vec<Command>, Skip>(Skip::UnsupportedFighterRole)
    &&& role != Role::Unaligned && w0 is None ==> r == Err::<Vec<Command>, Skip>(
        Skip::WeaponMissing,
    )
    &&& r is Err ==> s1 == s0 && a1 == a0 && b1 == b0 && w1 == w0
    &&& role != Role::Unaligned && w0 is Some ==> {
        let w = w0->0;
        let delay = ticked(w.shoot_delay, delta_ms);
        let starts = shot_starts(s0, w, delay);
        let t1 = if starts { played(Clip::Shooting, false) } else { a0 };
        let started = s0.has_started || starts;
        let fires = started && t1.current_clip == Some(Clip::Shooting) && t1.current_frame
        == attack.frames.startup && !s0.spawned_bullet && w.ammo > 0;
        let opening = if starts {
            if w.shot_sound {
                seq![Command::SpawnParticles, Command::PlayWeaponSound(Clip::Shooting)]
            } else {
                seq![Command::SpawnParticles]
            }
        } else {
            Seq::empty()
        };
        let bullet = if fires {
            seq![
                Command::SpawnBullet {
                    hitbox: bullet_spawn(attack, b0, side_of(role)),
                    velocity: Vec2 { x: mirrored(w.bullet_velocity as int, b0.facing) as i64, y: 0 },
                    lifetime_ms: w.bullet_lifetime_ms,
                },
            ]
        } else {
            Seq::empty()
        };
        &&& r is Ok
        &&& r->Ok_0@ =~= opening + bullet
        &&& w1 == Some(ProjectileWeapon {
                ammo: if fires { (w.ammo - 1) as u32 } else { w.ammo },
                shoot_delay: if starts { Timer { elapsed_ms: 0, ..delay } } else { delay },
                ..w
        })
        &&& a1 == if t1.finished { played(Clip::Idle, false) } else { t1 }
        &&& s1 == (Shooting {
                has_started: started,
                is_finished: s0.is_finished || t1.finished,
                spawned_bullet: s0.spawned_bullet || fires,
        })
        &&& b1 == (Body { velocity: Vec2 { x: 0, y: 0 }, ..b0 })
    }
}

/// A shot of a projectile weapon. The cooldown runs by `delta_ms`; the shot starts once ammo
/// is left and the cooldown is over, and its bullet leaves, once per activation, when the
/// weapon's clip reaches the attack's wind-up boundary.
pub fn shooting(
    shot: &mut Shooting,
    weapon_animation: &mut AnimationTrack,
    body: &mut Body,
    role: Role,
    attack: &AttackMeta,
    weapon: &mut Option<ProjectileWeapon>,
    delta_ms: u64,
) -> (r: Result<Vec<Command>, Skip>)
    requires
        attack_ok(*attack),
        (*old(weapon)) matches Some(w) ==> w.shoot_delay.wf() && coord_ok(w.bullet_velocity),
    ensures
        shot_tick(
            *old(shot),
            *final(shot),
            *old(weapon_animation),
            *final(weapon_animation),
            *old(body),
            *final(body),
            role,
            *attack,
            *old(weapon),
            *final(weapon),
            delta_ms,
            r,
        ),

{
    if role == Role::Unaligned {
        return Err(Skip::UnsupportedFighterRole);
    }
    let mut w = match *weapon {
        Some(w) => w,
        None => {
            return Err(Skip::WeaponMissing);
        },
    };
    let side = if role == Role::Player { Side::Player } else { Side::Enemy };
    let mut out: Vec<Command> = Vec::new();
    w.shoot_delay.tick(delta_ms);
    if !shot.has_started && w.ammo > 0 && w.shoot_delay.finished() {
        shot.has_started = true;
        w.shoot_delay.reset();
        weapon_animation.play(Clip::Shooting, false);
        out.push(Command::SpawnParticles);
        if w.shot_sound {
            out.push(Command::PlayWeaponSound(Clip::Shooting));
        }
    }
    if shot.has_started && weapon_animation.is_playing(Clip::Shooting)
        && weapon_animation.current_frame == attack.frames.startup && !shot.spawned_bullet
        && w.ammo > 0 {
        shot.spawned_bullet = true;
        w.ammo = w.ammo - 1;
        let left = body.facing.is_left();
        let offset = Vec2 {
            x: if left { -attack.hitbox_offset.x } else { attack.hitbox_offset.x },
            y: attack.hitbox_offset.y,
        };
        let pushback = match attack.velocity {
            Some(v) => Vec2 { x: if left { -v.x } else { v.x }, y: v.y },
            None => Vec2::zero(),
        };
        let hitbox = AttackSpawn {
            offset,
            side,
            damage: attack.damage,
            pushback,
            hitstun_duration_ms: attack.hitstun_duration_ms,
            frames: attack.frames,
        };
        let velocity = Vec2 {
            x: if left { -w.bullet_velocity } else { w.bullet_velocity },
            y: 0,
        };
        out.push(Command::SpawnBullet { hitbox, velocity, lifetime_ms: w.bullet_lifetime_ms });
    }
    body.velocity = Vec2::zero();
    if weapon_animation.is_finished() {
        shot.is_finished = true;
        weapon_animation.play(Clip::Idle, false);
    }
    *weapon = Some(w);
    Ok(out)
}

} // verus!
