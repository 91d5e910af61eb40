//! Handlers of the attack states. Each starts on its first tick (clip, hitbox, sound), drives
//! the fighter's velocity from the animation frame every tick, and marks itself finished
//! when the clip has played out.
use vstd::prelude::*;

use crate::geometry::{mirrored, Facing, Vec2};
use crate::handlers::{
    attack_ok, attack_spawn, coord_ok, make_attack_spawn, played, side_of, AnimationTrack,
    AttackSpawn, Body, Command, Role, Side, Skip,
};
use crate::meta::{AttackFrames, AttackMeta, AttackName, FighterMeta, ItemKind, ItemMeta};
use crate::state::{
    BossBombThrow, Chaining, Clip, Flopping, GroundSlam, ProjectileAttacking, Punching, CHAIN_LENGTH,
};

verus! {

/// Total rise of a flop, spread over its wind-up frames (thousandths).
pub const FLOP_RISE: i64 = 200_000;
/// Forward speed of a flop until recovery.
pub const FLOP_FORWARD: i64 = 200_000;
/// Total rise of a ground slam.
pub const SLAM_RISE: i64 = 800_000;
/// Forward speed of a ground slam during wind-up.
pub const SLAM_FORWARD: i64 = 50_000;

/// Vertical speed of a jumping attack at `frame`: the rise spread evenly over the wind-up
/// frames, the same fall spread over the active frames, then nothing.
pub open spec fn rise_fall(frame: u32, frames: AttackFrames, rise: int) -> int {
    if frame < frames.startup {
        rise / (frames.startup as int)
    } else if frame < frames.active {
        -(rise / (frames.active - frames.startup))
    } else {
        0
    }
}

fn rise_fall_at(frame: u32, frames: AttackFrames, rise: i64) -> (r: i64)
    requires
        0 <= rise <= i64::MAX,
    ensures
        r == rise_fall(frame, frames, rise as int),
{
    if frame < frames.startup {
        rise / (frames.startup as i64)
    } else if frame < frames.active {
        -(rise / ((frames.active - frames.startup) as i64))
    } else {
        0
    }
}

/// The first-tick commands of an attack: its hitbox, then its sound if the fighter has one.
pub open spec fn opening(spawn: AttackSpawn, clip: Clip, has_sound: bool) -> Seq<Command> {
    if has_sound {
        seq![Command::SpawnAttack(spawn), Command::PlaySound(clip)]
    } else {
        seq![Command::SpawnAttack(spawn)]
    }
}

fn open_attack(spawn: AttackSpawn, clip: Clip, fighter: &FighterMeta) -> (r: Vec<Command>)
    ensures
        r@ == opening(spawn, clip, fighter.effect_clips@.contains(clip)),
{
    let mut out: Vec<Command> = Vec::new();
    out.push(Command::SpawnAttack(spawn));
    if fighter.has_effects(clip) {
        out.push(Command::PlaySound(clip));
    }
    out
}

/// The playhead after an attack's tick: restarted on `clip` on the first tick.
pub open spec fn started_track(track: AnimationTrack, has_started: bool, clip: Clip) -> AnimationTrack {
    if has_started {
        track
    } else {
        played(clip, false)
    }
}

/// Velocity of a flop at `frame`.
pub open spec fn flop_velocity(frame: u32, frames: AttackFrames, facing: Facing) -> Vec2 {
    Vec2 {
        x: if frame < frames.recovery { mirrored(FLOP_FORWARD as int, facing) as i64 } else { 0 },
        y: rise_fall(frame, frames, FLOP_RISE as int) as i64,
    }
}

/// Velocity of a ground slam at `frame`.
pub open spec fn slam_velocity(frame: u32, frames: AttackFrames, facing: Facing) -> Vec2 {
    Vec2 {
        x: if frame < frames.startup { mirrored(SLAM_FORWARD as int, facing) as i64 } else { 0 },
        y: rise_fall(frame, frames, SLAM_RISE as int) as i64,
    }
}

/// The handler leaves everything as it was.
pub open spec fn untouched<S>(s0: S, s1: S, a0: AnimationTrack, a1: AnimationTrack, b0: Body, b1: Body) -> bool {
    s0 == s1 && a0 == a1 && b0 == b1
}

/// One tick of a flop, as `flopping` performs it: the payload goes from `s0` to `s1`, the
/// playhead from `a0` to `a1`, the body from `b0` to `b1`, and `r` is what it returns.
pub open spec fn flop_tick(
    s0: Flopping,
    s1: Flopping,
    a0: AnimationTrack,
    a1: AnimationTrack,
    b0: Body,
    b1: Body,
    role: Role,
    attack: AttackMeta,
    fighter: Option<&FighterMeta>,
    r: Result<Vec<Command>, Skip>,
) -> bool {
    &&& role == Role::Unaligned ==> r == Err::<Vec<Command>, Skip>(Skip::UnsupportedFighterRole)
    &&& role != Role::Unaligned && fighter is None ==> r == Err::<Vec<Command>, Skip>(
        Skip::MetadataNotReady,
    )
    &&& r is Err ==> untouched(s0, s1, a0, a1, b0, b1)
    &&& role != Role::Unaligned && fighter is Some ==> {
        let m = fighter->0;
        let track = started_track(a0, s0.has_started, Clip::Attacking);
        let start_y = if s0.has_started { s0.start_y } else { b0.position.y };
        &&& r is Ok
        &&& r->Ok_0@ =~= if s0.has_started {
            Seq::empty()
        } else {
            opening(
                attack_spawn(attack, b0.facing, side_of(role), m.collision_offset as int),
                Clip::Attacking,
                m.effect_clips@.contains(Clip::Attacking),
            )
        }
        &&& a1 == track
        &&& s1 == (Flopping { start_y, has_started: true, is_finished: s0.is_finished || track.finished })
        &&& b1.facing == b0.facing
        &&& b1.position.x == b0.position.x
        &&& if track.finished {
            b1.velocity == Vec2 { x: 0, y: 0 } && b1.position.y == start_y
        } else {
            b1.velocity == flop_velocity(track.current_frame, attack.frames, b0.facing)
            && b1.position.y == b0.position.y
        }
    }
}

/// Flopping, a forward jump: rise during wind-up, fall during the hit, and land where it
/// took off when the clip ends.
pub fn flopping(
    flop: &mut Flopping,
    animation: &mut AnimationTrack,
    body: &mut Body,
    role: Role,
    attack: &AttackMeta,
    fighter: Option<&FighterMeta>,
) -> (r: Result<Vec<Command>, Skip>)
    requires
        attack_ok(*attack),
        fighter matches Some(m) ==> coord_ok(m.collision_offset),
    ensures
        flop_tick(
            *old(flop),
            *final(flop),
            *old(animation),
            *final(animation),
            *old(body),
            *final(body),
            role,
            *attack,
            fighter,
            r,
        ),

{
    if role == Role::Unaligned {
        return Err(Skip::UnsupportedFighterRole);
    }
    let m = match fighter {
        Some(m) => m,
        None => {
            return Err(Skip::MetadataNotReady);
        },
    };
    let side = if role == Role::Player { Side::Player } else { Side::Enemy };
    let mut out: Vec<Command> = Vec::new();
    if !flop.has_started {
        flop.has_started = true;
        flop.start_y = body.position.y;
        animation.play(Clip::Attacking, false);
        let spawn = make_attack_spawn(attack, body.facing, side, m.collision_offset);
        out = open_attack(spawn, Clip::Attacking, m);
    }
    let frame = animation.current_frame;
    let vx = if frame < attack.frames.recovery {
        if body.facing.is_left() {
            -FLOP_FORWARD
        } else {
            FLOP_FORWARD
        }
    } else {
        0
    };
    let vy = rise_fall_at(frame, attack.frames, FLOP_RISE);
    body.velocity = Vec2 { x: vx, y: vy };
    if animation.is_finished() {
        body.velocity = Vec2::zero();
        body.position.y = flop.start_y;
        flop.is_finished = true;
    }
    Ok(out)
}

/// One tick of a punch, as `punching` performs it: the payload goes from `s0` to `s1`, the
/// playhead from `a0` to `a1`, the body from `b0` to `b1`, and `r` is what it returns.
pub open spec fn punch_tick(
    s0: Punching,
    s1: Punching,
    a0: AnimationTrack,
    a1: AnimationTrack,
    b0: Body,
    b1: Body,
    role: Role,
    attack: AttackMeta,
    fighter: Option<&FighterMeta>,
    r: Result<Vec<Command>, Skip>,
) -> bool {
    &&& role == Role::Unaligned ==> r == Err::<Vec<Command>, Skip>(Skip::UnsupportedFighterRole)
    &&& role != Role::Unaligned && fighter is None ==> r == Err::<Vec<Command>, Skip>(
        Skip::MetadataNotReady,
    )
    &&& r is Err ==> untouched(s0, s1, a0, a1, b0, b1)
    &&& role != Role::Unaligned && fighter is Some ==> {
        let m = fighter->0;
        let track = started_track(a0, s0.has_started, Clip::Attacking);
        &&& r is Ok
        &&& r->Ok_0@ =~= if s0.has_started {
            Seq::empty()
        } else {
            opening(
                attack_spawn(attack, b0.facing, side_of(role), m.collision_offset as int),
                Clip::Attacking,
                m.effect_clips@.contains(Clip::Attacking),
            )
        }
        &&& a1 == track
        &&& s1 == (Punching { has_started: true, is_finished: s0.is_finished || track.finished })
        &&& b1 == (Body { velocity: Vec2 { x: 0, y: 0 }, ..b0 })
    }
}

/// Punching: open the attack on the first tick, stand still, finish with the clip.
pub fn punching(
    punch: &mut Punching,
    animation: &mut AnimationTrack,
    body: &mut Body,
    role: Role,
    attack: &AttackMeta,
    fighter: Option<&FighterMeta>,
) -> (r: Result<Vec<Command>, Skip>)
    requires
        attack_ok(*attack),
        fighter matches Some(m) ==> coord_ok(m.collision_offset),
    ensures
        punch_tick(
            *old(punch),
            *final(punch),
            *old(animation),
            *final(animation),
            *old(body),
            *final(body),
            role,
            *attack,
            fighter,
            r,
        ),

{
    if role == Role::Unaligned {
        return Err(Skip::UnsupportedFighterRole);
    }
    let m = match fighter {
        Some(m) => m,
        None => {
            return Err(Skip::MetadataNotReady);
        },
    };
    let side = if role == Role::Player { Side::Player } else { Side::Enemy };
    let mut out: Vec<Command> = Vec::new();
    if !punch.has_started {
        punch.has_started = true;
        animation.play(Clip::Attacking, false);
        let spawn = make_attack_spawn(attack, body.facing, side, m.collision_offset);
        out = open_attack(spawn, Clip::Attacking, m);
    }
    body.velocity = Vec2::zero();
    if animation.is_finished() {
        punch.is_finished = true;
    }
    Ok(out)
}

/// One tick of a ground slam, as `ground_slam` performs it: the payload goes from `s0` to `s1`, the
/// playhead from `a0` to `a1`, the body from `b0` to `b1`, and `r` is what it returns.
pub open spec fn slam_tick(
    s0: GroundSlam,
    s1: GroundSlam,
    a0: AnimationTrack,
    a1: AnimationTrack,
    b0: Body,
    b1: Body,
    role: Role,
    attack: AttackMeta,
    fighter: Option<&FighterMeta>,
    r: Result<Vec<Command>, Skip>,
) -> bool {
    &&& role != Role::Boss ==> r == Err::<Vec<Command>, Skip>(Skip::UnsupportedFighterRole)
    &&& role == Role::Boss && fighter is None ==> r == Err::<Vec<Command>, Skip>(
        Skip::MetadataNotReady,
    )
    &&& r is Err ==> untouched(s0, s1, a0, a1, b0, b1)
    &&& role == Role::Boss && fighter is Some ==> {
        let m = fighter->0;
        let track = started_track(a0, s0.has_started, Clip::Attacking);
        let start_y = if s0.has_started { s0.start_y } else { b0.position.y };
        &&& r is Ok
        &&& r->Ok_0@ =~= if s0.has_started {
            Seq::empty()
        } else {
            opening(
                attack_spawn(attack, b0.facing, Side::Enemy, m.collision_offset as int),
                Clip::Attacking,
                m.effect_clips@.contains(Clip::Attacking),
            )
        }
        &&& a1 == track
        &&& s1 == (GroundSlam { start_y, has_started: true, is_finished: s0.is_finished || track.finished })
        &&& b1.facing == b0.facing
        &&& b1.position.x == b0.position.x
        &&& if track.finished {
            b1.velocity == Vec2 { x: 0, y: 0 } && b1.position.y == start_y
        } else {
            b1.velocity == slam_velocity(track.current_frame, attack.frames, b0.facing)
            && b1.position.y == b0.position.y
        }
    }
}

/// The boss's ground slam: a steep jump with a short forward push, landing where it took off.
pub fn ground_slam(
    slam: &mut GroundSlam,
    animation: &mut AnimationTrack,
    body: &mut Body,
    role: Role,
    attack: &AttackMeta,
    fighter: Option<&FighterMeta>,
) -> (r: Result<Vec<Command>, Skip>)
    requires
        attack_ok(*attack),
        fighter matches Some(m) ==> coord_ok(m.collision_offset),
    ensures
        slam_tick(
            *old(slam),
            *final(slam),
            *old(animation),
            *final(animation),
            *old(body),
            *final(body),
            role,
            *attack,
            fighter,
            r,
        ),

{
    if role != Role::Boss {
        return Err(Skip::UnsupportedFighterRole);
    }
    let m = match fighter {
        Some(m) => m,
        None => {
            return Err(Skip::MetadataNotReady);
        },
    };
    let mut out: Vec<Command> = Vec::new();
    if !slam.has_started {
        slam.has_started = true;
        slam.start_y = body.position.y;
        animation.play(Clip::Attacking, false);
        let spawn = make_attack_spawn(attack, body.facing, Side::Enemy, m.collision_offset);
        out = open_attack(spawn, Clip::Attacking, m);
    }
    body.velocity = Vec2::zero();
    if !animation.is_finished() {
        let frame = animation.current_frame;
        let vx = if frame < attack.frames.startup {
            if body.facing.is_left() {
                -SLAM_FORWARD
            } else {
                SLAM_FORWARD
            }
        } else {
            0
        };
        let vy = rise_fall_at(frame, attack.frames, SLAM_RISE);
        body.velocity = Vec2 { x: vx, y: vy };
    } else {
        body.position.y = slam.start_y;
        slam.is_finished = true;
    }
    Ok(out)
}

/// Forward speed of a chain hit between wind-up and recovery.
pub const CHAIN_FORWARD: i64 = 100_000;

/// Frame at which a follow-up hit of a chain starts its clip.
pub const FOLLOWUP_START_FRAME: u32 = 2;

/// The last attack named as a chain hit, if the fighter has one.
pub open spec fn last_chain_attack(attacks: Seq<AttackMeta>) -> Option<AttackMeta>
    decreases attacks.len(),
{
    if attacks.len() == 0 {
        None
    } else if attacks.last().name == AttackName::Chain {
        Some(attacks.last())
    } else {
        last_chain_attack(attacks.drop_last())
    }
}

fn find_chain_attack(attacks: &Vec<AttackMeta>) -> (r: Option<AttackMeta>)
    ensures
        r == last_chain_attack(attacks@),
{
    let mut found: Option<AttackMeta> = None;
    let mut i: usize = 0;
    while i < attacks.len()
        invariant
            i <= attacks@.len(),
            found == last_chain_attack(attacks@.subrange(0, i as int)),
        decreases attacks@.len() - i,
    {
        assert(attacks@.subrange(0, i as int + 1).drop_last() == attacks@.subrange(0, i as int));
        if attacks[i].name == AttackName::Chain {
            found = Some(attacks[i]);
        }
        i = i + 1;
    }
    assert(attacks@.subrange(0, attacks@.len() as int) == attacks@);
    found
}

/// The combo takes its next hit this tick: asked for, not yet at the finisher, and either
/// the first tick or past the current hit's active frame.
pub open spec fn chain_extends(c: Chaining) -> bool {
    c.continue_chain && !c.transition_to_final && (!c.has_started || c.can_extend)
}

/// A hit of the combo starts this tick.
pub open spec fn chain_fires(c: Chaining) -> bool {
    !c.has_started || chain_extends(c)
}

/// The playhead after a chain tick's start: the base clip on the first tick, the follow-up
/// clip from its mid frame on each further hit.
pub open spec fn chain_track(track: AnimationTrack, c: Chaining) -> AnimationTrack {
    let t1 = if !c.has_started { played(Clip::Chaining, false) } else { track };
    if chain_extends(c) {
        AnimationTrack { current_frame: FOLLOWUP_START_FRAME, ..played(Clip::Followup, false) }
    } else {
        t1
    }
}

/// The commands of a chain tick: the sounds of the clips it starts, then the hitbox.
pub open spec fn chain_commands(
    c: Chaining,
    spawn: AttackSpawn,
    effects: Seq<Clip>,
) -> Seq<Command> {
    if chain_fires(c) {
        let first = if !c.has_started && effects.contains(Clip::Chaining) {
            seq![Command::PlaySound(Clip::Chaining)]
        } else {
            Seq::empty()
        };
        let next = if chain_extends(c) && effects.contains(Clip::Followup) {
            seq![Command::PlaySound(Clip::Followup)]
        } else {
            Seq::empty()
        };
        first + next + seq![Command::SpawnAttack(spawn)]
    } else {
        Seq::empty()
    }
}

/// The combo after a tick in which the playhead ended at `track`.
pub open spec fn chain_after(c: Chaining, track: AnimationTrack, active: u32) -> Chaining {
    let extends = chain_extends(c);
    Chaining {
        has_started: true,
        continue_chain: if extends { false } else { c.continue_chain },
        can_extend: (!chain_fires(c) && c.can_extend) || track.current_frame > active,
        transition_to_final: c.transition_to_final || (extends && c.link + 1 >= CHAIN_LENGTH),
        transition_to_idle: c.transition_to_idle || track.finished,
        link: if extends { (c.link + 1) as u32 } else { c.link },
    }
}

/// A combo tick keeps the link count within the combo, counts at most one link, and once the
/// finisher is flagged no further request moves the count or clears the flag.
pub proof fn lemma_chain_link_bounded(c: Chaining, track: AnimationTrack, active: u32)
    requires
        c.wf(),
    ensures
        chain_after(c, track, active).wf(),
        chain_after(c, track, active).link == c.link || chain_after(c, track, active).link == c.link + 1,
        c.transition_to_final ==> chain_after(c, track, active).link == c.link
            && chain_after(c, track, active).transition_to_final,
        chain_after(c, track, active).link == CHAIN_LENGTH ==> chain_after(c, track, active).transition_to_final,
{
}

/// Velocity of a chain hit at `frame`: a short step forward between wind-up and recovery.
pub open spec fn chain_velocity(frame: u32, frames: AttackFrames, facing: Facing) -> Vec2 {
    Vec2 {
        x: if frames.startup < frame && frame < frames.recovery {
            mirrored(CHAIN_FORWARD as int, facing) as i64
        } else {
            0
        },
        y: 0,
    }
}

/// One tick of a combo, as `chaining` performs it: the payload goes from `s0` to `s1`, the
/// playhead from `a0` to `a1`, the body from `b0` to `b1`, and `r` is what it returns.
pub open spec fn chain_tick(
    s0: Chaining,
    s1: Chaining,
    a0: AnimationTrack,
    a1: AnimationTrack,
    b0: Body,
    b1: Body,
    role: Role,
    attacks: Seq<AttackMeta>,
    fighter: Option<&FighterMeta>,
    r: Result<Vec<Command>, Skip>,
) -> bool {
    &&& s1.wf()
    &&& role != Role::Player ==> r == Err::<Vec<Command>, Skip>(Skip::UnsupportedFighterRole)
    &&& role == Role::Player && (fighter is None || last_chain_attack(attacks) is None) ==> r
    == Err::<Vec<Command>, Skip>(Skip::MetadataNotReady)
    &&& r is Err ==> untouched(s0, s1, a0, a1, b0, b1)
    &&& role == Role::Player && fighter is Some && last_chain_attack(attacks) is Some ==> {
        let m = fighter->0;
        let attack = last_chain_attack(attacks)->0;
        let track = chain_track(a0, s0);
        &&& r is Ok
        &&& r->Ok_0@ =~= chain_commands(
            s0,
            attack_spawn(attack, b0.facing, Side::Player, m.collision_offset as int),
            m.effect_clips@,
        )
        &&& a1 == track
        &&& s1 == chain_after(s0, track, attack.frames.active)
        &&& b1 == (Body {
                velocity: chain_velocity(track.current_frame, attack.frames, b0.facing),
                ..b0
        })
    }
}

/// Chaining, the player's combo: the first hit plays the base clip; each further request,
/// once the current hit is past its active frame, plays the follow-up and counts a link;
/// the last link flags the finisher, and a clip that plays out without a request flags the
/// return to idling.
pub fn chaining(
    chain: &mut Chaining,
    animation: &mut AnimationTrack,
    body: &mut Body,
    role: Role,
    attacks: &Vec<AttackMeta>,
    fighter: Option<&FighterMeta>,
) -> (r: Result<Vec<Command>, Skip>)
    requires
        old(chain).wf(),
        forall|i: int| 0 <= i < attacks@.len() ==> attack_ok(#[trigger] attacks@[i]),
        fighter matches Some(m) ==> coord_ok(m.collision_offset),
    ensures
        chain_tick(
            *old(chain),
            *final(chain),
            *old(animation),
            *final(animation),
            *old(body),
            *final(body),
            role,
            attacks@,
            fighter,
            r,
        ),

{
    if role != Role::Player {
        return Err(Skip::UnsupportedFighterRole);
    }
    let m = match fighter {
        Some(m) => m,
        None => {
            return Err(Skip::MetadataNotReady);
        },
    };
    let attack = match find_chain_attack(attacks) {
        Some(a) => a,
        None => {
            return Err(Skip::MetadataNotReady);
        },
    };
    proof {
        let s = attacks@;
        assert(attack_ok(attack)) by {
            lemma_last_chain_attack_in(s);
        }
    }
    let mut out: Vec<Command> = Vec::new();
    let extends = chain.continue_chain && !chain.transition_to_final && (!chain.has_started
        || chain.can_extend);
    if !chain.has_started || extends {
        if !chain.has_started {
            chain.has_started = true;
            animation.play(Clip::Chaining, false);
            if m.has_effects(Clip::Chaining) {
                out.push(Command::PlaySound(Clip::Chaining));
            }
        }
        if extends {
            animation.play(Clip::Followup, false);
            animation.current_frame = FOLLOWUP_START_FRAME;
            chain.continue_chain = false;
            chain.link = chain.link + 1;
            if chain.link >= CHAIN_LENGTH {
                chain.transition_to_final = true;
            }
            if m.has_effects(Clip::Followup) {
                out.push(Command::PlaySound(Clip::Followup));
            }
        }
        chain.can_extend = false;
        let spawn = make_attack_spawn(&attack, body.facing, Side::Player, m.collision_offset);
        out.push(Command::SpawnAttack(spawn));
    }
    let frame = animation.current_frame;
    if frame > attack.frames.active {
        chain.can_extend = true;
    }
    let vx = if attack.frames.startup < frame && frame < attack.frames.recovery {
        if body.facing.is_left() {
            -CHAIN_FORWARD
        } else {
            CHAIN_FORWARD
        }
    } else {
        0
    };
    body.velocity = Vec2 { x: vx, y: 0 };
    if animation.is_finished() {
        chain.transition_to_idle = true;
    }
    Ok(out)
}

/// The chain attack found is one of the fighter's attacks.
proof fn lemma_last_chain_attack_in(s: Seq<AttackMeta>)
    ensures
        last_chain_attack(s) matches Some(a) ==> exists|i: int| 0 <= i < s.len() && s[i] == a,
    decreases s.len(),
{
    if s.len() > 0 {
        lemma_last_chain_attack_in(s.drop_last());
        if s.last().name != AttackName::Chain {
            if let Some(a) = last_chain_attack(s.drop_last()) {
                let i = choose|i: int| 0 <= i < s.drop_last().len() && s.drop_last()[i] == a;
                assert(s[i] == a);
            }
        } else {
            assert(s[s.len() - 1] == s.last());
        }
    }
}

/// One tick of a bomb throw, as `bomb_throw` performs it: the payload goes from `s0` to `s1`, the
/// playhead from `a0` to `a1`, the body from `b0` to `b1`, and `r` is what it returns.
pub open spec fn bomb_throw_tick(
    s0: BossBombThrow,
    s1: BossBombThrow,
    a0: AnimationTrack,
    a1: AnimationTrack,
    b0: Body,
    b1: Body,
    role: Role,
    attack: AttackMeta,
    item: Option<ItemMeta>,
    r: Result<Vec<Command>, Skip>,
) -> bool {
    &&& role != Role::Boss ==> r == Err::<Vec<Command>, Skip>(Skip::UnsupportedFighterRole)
    &&& role == Role::Boss && item is None ==> r == Err::<Vec<Command>, Skip>(Skip::MetadataNotReady)
    &&& role == Role::Boss && item is Some && !(item->0.kind is Bomb) ==> r == Err::<
    Vec<Command>,
    Skip,
    >(Skip::KindMismatch)
    &&& r is Err ==> untouched(s0, s1, a0, a1, b0, b1)
    &&& role == Role::Boss && item is Some && item->0.kind is Bomb ==> {
        let it = item->0;
        let track = started_track(a0, s0.has_started, Clip::BombThrow);
        let fires = !track.finished && ((track.current_frame == attack.frames.startup
                && !s0.thrown) || (track.current_frame == attack.frames.active
                && s0.thrown));
        &&& r is Ok
        &&& r->Ok_0@ =~= if fires {
            seq![Command::SpawnBomb { item: it.id, lifetime_ms: it.kind->Bomb_bomb.lifetime_ms }]
        } else {
            Seq::empty()
        }
        &&& a1 == track
        &&& s1 == (BossBombThrow {
                has_started: true,
                is_finished: s0.is_finished || track.finished,
                thrown: if fires { !s0.thrown } else { s0.thrown },
        })
        &&& b1 == (Body { velocity: Vec2 { x: 0, y: 0 }, ..b0 })
    }
}

/// The boss throws two fused bombs in one activation: the first at the wind-up boundary, the
/// second at the active boundary.
pub fn bomb_throw(
    throw: &mut BossBombThrow,
    animation: &mut AnimationTrack,
    body: &mut Body,
    role: Role,
    attack: &AttackMeta,
    item: Option<ItemMeta>,
) -> (r: Result<Vec<Command>, Skip>)
    ensures
        bomb_throw_tick(
            *old(throw),
            *final(throw),
            *old(animation),
            *final(animation),
            *old(body),
            *final(body),
            role,
            *attack,
            item,
            r,
        ),

{
    if role != Role::Boss {
        return Err(Skip::UnsupportedFighterRole);
    }
    let it = match item {
        Some(it) => it,
        None => {
            return Err(Skip::MetadataNotReady);
        },
    };
    let bomb = match it.kind {
        ItemKind::Bomb { bomb } => bomb,
        _ => {
            return Err(Skip::KindMismatch);
        },
    };
    if !throw.has_started {
        throw.has_started = true;
        animation.play(Clip::BombThrow, false);
    }
    let mut out: Vec<Command> = Vec::new();
    if !animation.is_finished() {
        let frame = animation.current_frame;
        if (frame == attack.frames.startup && !throw.thrown) || (frame == attack.frames.active
            && throw.thrown) {
            out.push(Command::SpawnBomb { item: it.id, lifetime_ms: bomb.lifetime_ms });
            throw.thrown = !throw.thrown;
        }
    } else {
        throw.is_finished = true;
    }
    body.velocity = Vec2::zero();
    Ok(out)
}

/// One tick of a projectile attack, as `projectile_attacking` performs it: the payload goes from `s0` to `s1`, the
/// playhead from `a0` to `a1`, the body from `b0` to `b1`, and `r` is what it returns.
pub open spec fn projectile_tick(
    s0: ProjectileAttacking,
    s1: ProjectileAttacking,
    a0: AnimationTrack,
    a1: AnimationTrack,
    b0: Body,
    b1: Body,
    role: Role,
    attack: AttackMeta,
    item: Option<ItemMeta>,
    r: Result<Vec<Command>, Skip>,
) -> bool {
    &&& role == Role::Player || role == Role::Unaligned ==> r == Err::<Vec<Command>, Skip>(
        Skip::UnsupportedFighterRole,
    )
    &&& (role == Role::Enemy || role == Role::Boss) && item is None ==> r == Err::<
    Vec<Command>,
    Skip,
    >(Skip::MetadataNotReady)
    &&& r is Err ==> untouched(s0, s1, a0, a1, b0, b1)
    &&& (role == Role::Enemy || role == Role::Boss) && item is Some ==> {
        let it = item->0;
        let track = started_track(a0, s0.has_started, Clip::Attacking);
        let fires = !track.finished && track.current_frame == attack.frames.startup
        && !s0.thrown;
        &&& r is Ok
        &&& r->Ok_0@ =~= if fires {
            seq![Command::ThrowProjectile { item: it.id, by_enemy: true }]
        } else {
            Seq::empty()
        }
        &&& a1 == track
        &&& s1 == (ProjectileAttacking {
                has_started: true,
                is_finished: s0.is_finished || track.finished,
                thrown: s0.thrown || fires,
        })
        &&& b1 == (Body { velocity: Vec2 { x: 0, y: 0 }, ..b0 })
    }
}

/// An enemy throws its projectile item once, at the wind-up boundary of its clip.
pub fn projectile_attacking(
    attacking: &mut ProjectileAttacking,
    animation: &mut AnimationTrack,
    body: &mut Body,
    role: Role,
    attack: &AttackMeta,
    item: Option<ItemMeta>,
) -> (r: Result<Vec<Command>, Skip>)
    ensures
        projectile_tick(
            *old(attacking),
            *final(attacking),
            *old(animation),
            *final(animation),
            *old(body),
            *final(body),
            role,
            *attack,
            item,
            r,
        ),

{
    if role == Role::Player || role == Role::Unaligned {
        return Err(Skip::UnsupportedFighterRole);
    }
    let it = match item {
        Some(it) => it,
        None => {
            return Err(Skip::MetadataNotReady);
        },
    };
    if !attacking.has_started {
        attacking.has_started = true;
        animation.play(Clip::Attacking, false);
    }
    let mut out: Vec<Command> = Vec::new();
    if !animation.is_finished() {
        if animation.current_frame == attack.frames.startup && !attacking.thrown {
            out.push(Command::ThrowProjectile { item: it.id, by_enemy: true });
            attacking.thrown = true;
        }
    } else {
        attacking.is_finished = true;
    }
    body.velocity = Vec2::zero();
    Ok(out)
}

} // verus!
