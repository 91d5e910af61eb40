//! A fighter with everything its states read and write, and the three stages of its tick:
//! collect intents, transition, run the current state's handler.
use vstd::prelude::*;

use crate::attacks::{
    bomb_throw, bomb_throw_tick, chain_tick, chaining, flop_tick, flopping, ground_slam,
    projectile_attacking, projectile_tick, punch_tick, punching, slam_tick,
};
use crate::collect::{
    axis_in_range, chain_requested, collect_fighter_eliminations, collect_hitstuns,
    collect_player_actions, hitstun_intents, intent_to, player_intents, DamageEvent, PlayerInput,
};
use crate::geometry::{Facing, Vec2};
use crate::handlers::{
    attack_ok, coord_ok, dying, facing_after_move, hitstun, hitstun_clip, idling, moving, played,
    AnimationTrack, Body, Command, Role, Skip,
};
use crate::intents::StateTransitionIntents;
use crate::items::{
    grab_commands, grab_item, is_held_kind, is_weapon_kind, item_ok, thrown, throwing,
    weapon_attack, GroundItem, ItemCommand, JITTER_END, JITTER_MIN,
};
use crate::meta::{AttackMeta, AttackName, FighterMeta, ItemMeta};
use crate::state::{Clip, Dying, FighterState, FighterStates, HitStun, Holding, Idling};
use crate::transition::{transition_from_current, transitioned};
use crate::weapons::{melee_attacking, melee_tick, shooting, shot_tick, ticked, MeleeWeapon, ProjectileWeapon};

verus! {

/// A combatant: its states, its pending intents, its body and animation, and what it carries.
pub struct Fighter {
    pub id: u64,
    pub role: Role,
    pub states: FighterStates,
    pub intents: StateTransitionIntents,
    pub body: Body,
    pub animation: AnimationTrack,
    pub health: i64,
    pub movement_speed: i64,
    pub inventory: Option<ItemMeta>,
    /// The attacks the fighter can perform; the last one is the current attack.
    pub attacks: Vec<AttackMeta>,
    pub melee_weapon: Option<MeleeWeapon>,
    pub gun: Option<ProjectileWeapon>,
    pub weapon_animation: AnimationTrack,
}

/// The variant of a state, as a number.
pub open spec fn kind_of(s: FighterState) -> int {
    match s {
        FighterState::Idling(_) => 0,
        FighterState::Moving(_) => 1,
        FighterState::Throwing(_) => 2,
        FighterState::Grabbing(_) => 3,
        FighterState::Flopping(_) => 4,
        FighterState::GroundSlam(_) => 5,
        FighterState::BossBombThrow(_) => 6,
        FighterState::Punching(_) => 7,
        FighterState::Chaining(_) => 8,
        FighterState::MeleeAttacking(_) => 9,
        FighterState::Shooting(_) => 10,
        FighterState::ProjectileAttacking(_) => 11,
        FighterState::Holding(_) => 12,
        FighterState::HitStun(_) => 13,
        FighterState::Dying(_) => 14,
    }
}

/// The two states are the same variant, whatever their payloads.
pub open spec fn same_kind(a: FighterState, b: FighterState) -> bool {
    kind_of(a) == kind_of(b)
}

/// The name of the current attack: the last of the list.
pub open spec fn current_attack_name(attacks: Seq<AttackMeta>) -> AttackName {
    if attacks.len() > 0 {
        attacks.last().name
    } else {
        AttackName::Other
    }
}

/// What a handler leaves alone: the fighter stays well formed, its current state keeps its
/// kind (but for moving, which falls back to idling), and its additive states, intents,
/// inventory, attacks and horizontal position are untouched.
pub open spec fn handler_kept(a: &Fighter, b: &Fighter) -> bool {
    &&& b.wf()
    &&& (a.states.current is Moving ==> b.states.current == FighterState::Idling(Idling))
    &&& (!(a.states.current is Moving) ==> same_kind(a.states.current, b.states.current))
    &&& b.states.throwing == a.states.throwing
    &&& b.states.grabbing == a.states.grabbing
    &&& b.states.holding == a.states.holding
    &&& b.intents@ == a.intents@
    &&& b.inventory == a.inventory
    &&& b.attacks@ == a.attacks@
    &&& b.body.position.x == a.body.position.x
    &&& b.id == a.id
    &&& b.role == a.role
}

/// The fighter's current attack, if it has one.
pub open spec fn current_attack_of(f: &Fighter) -> Option<AttackMeta> {
    if f.attacks@.len() > 0 {
        Some(f.attacks@.last())
    } else {
        None
    }
}

/// An attack state's handler was skipped for want of an attack: nothing changed.
pub open spec fn no_attack_skip(f0: &Fighter, f1: &Fighter, r: Result<Vec<Command>, Skip>) -> bool {
    &&& r == Err::<Vec<Command>, Skip>(Skip::MetadataNotReady)
    &&& f1.states == f0.states
    &&& f1.animation == f0.animation
    &&& f1.body == f0.body
}

/// The handler stage of one tick, state by state: which handler ran, and what it did to the
/// fighter's payload, playheads, body and weapons (see each handler's tick predicate).
pub open spec fn handled(
    f0: &Fighter,
    f1: &Fighter,
    meta: Option<&FighterMeta>,
    attack_item: Option<ItemMeta>,
    delta_ms: u64,
    r: Result<Vec<Command>, Skip>,
) -> bool {
    let cur = f1.states.current;
    match f0.states.current {
        FighterState::Idling(_) => {
            &&& r is Ok && r->Ok_0@.len() == 0
            &&& f1.animation == if f0.animation.current_clip == Some(Clip::Idle) {
                f0.animation
            } else {
                played(Clip::Idle, true)
            }
            &&& f1.body == (Body { velocity: Vec2 { x: 0, y: 0 }, ..f0.body })
        },
        FighterState::Moving(m) => {
            &&& r is Ok && r->Ok_0@.len() == 0
            &&& cur == FighterState::Idling(Idling)
            &&& f1.animation == if f0.animation.current_clip == Some(Clip::Running) {
                f0.animation
            } else {
                played(Clip::Running, true)
            }
            &&& f1.body == (Body {
                velocity: m.velocity,
                facing: facing_after_move(f0.body.facing, m.velocity),
                ..f0.body
            })
        },
        FighterState::HitStun(h) => {
            &&& r is Ok && r->Ok_0@.len() == 0
            &&& cur == FighterState::HitStun(HitStun { pushback: h.pushback, timer: ticked(h.timer, delta_ms) })
            &&& f1.animation == if h.timer.elapsed_ms == 0 {
                played(hitstun_clip(h.pushback, f0.body.facing), false)
            } else {
                f0.animation
            }
            &&& f1.body == (Body { velocity: h.pushback, ..f0.body })
        },
        FighterState::Dying(_) => {
            &&& r is Ok
            &&& (r->Ok_0@.contains(Command::Despawn) <==> (f0.animation.current_clip == Some(
                Clip::Dying,
            ) && f0.animation.finished))
        },
        FighterState::Chaining(c) => cur is Chaining && chain_tick(
            c,
            cur->Chaining_0,
            f0.animation,
            f1.animation,
            f0.body,
            f1.body,
            f0.role,
            f0.attacks@,
            meta,
            r,
        ),
        FighterState::Flopping(s) => match current_attack_of(f0) {
            None => no_attack_skip(f0, f1, r),
            Some(a) => cur is Flopping && flop_tick(
                s,
                cur->Flopping_0,
                f0.animation,
                f1.animation,
                f0.body,
                f1.body,
                f0.role,
                a,
                meta,
                r,
            ),
        },
        FighterState::GroundSlam(s) => match current_attack_of(f0) {
            None => no_attack_skip(f0, f1, r),
            Some(a) => cur is GroundSlam && slam_tick(
                s,
                cur->GroundSlam_0,
                f0.animation,
                f1.animation,
                f0.body,
                f1.body,
                f0.role,
                a,
                meta,
                r,
            ),
        },
        FighterState::Punching(s) => match current_attack_of(f0) {
            None => no_attack_skip(f0, f1, r),
            Some(a) => cur is Punching && punch_tick(
                s,
                cur->Punching_0,
                f0.animation,
                f1.animation,
                f0.body,
                f1.body,
                f0.role,
                a,
                meta,
                r,
            ),
        },
        FighterState::BossBombThrow(s) => match current_attack_of(f0) {
            None => no_attack_skip(f0, f1, r),
            Some(a) => cur is BossBombThrow && bomb_throw_tick(
                s,
                cur->BossBombThrow_0,
                f0.animation,
                f1.animation,
                f0.body,
                f1.body,
                f0.role,
                a,
                attack_item,
                r,
            ),
        },
        FighterState::ProjectileAttacking(s) => match current_attack_of(f0) {
            None => no_attack_skip(f0, f1, r),
            Some(a) => cur is ProjectileAttacking && projectile_tick(
                s,
                cur->ProjectileAttacking_0,
                f0.animation,
                f1.animation,
                f0.body,
                f1.body,
                f0.role,
                a,
                attack_item,
                r,
            ),
        },
        FighterState::MeleeAttacking(s) => match current_attack_of(f0) {
            None => no_attack_skip(f0, f1, r),
            Some(a) => {
                &&& cur is MeleeAttacking
                &&& melee_tick(
                    s,
                    cur->MeleeAttacking_0,
                    f0.weapon_animation,
                    f1.weapon_animation,
                    f0.body,
                    f1.body,
                    f0.role,
                    a,
                    f0.melee_weapon,
                    r,
                )
                &&& f1.animation == f0.animation
            },
        },
        FighterState::Shooting(s) => match current_attack_of(f0) {
            None => no_attack_skip(f0, f1, r) && f1.gun == f0.gun,
            Some(a) => {
                &&& cur is Shooting
                &&& shot_tick(
                    s,
                    cur->Shooting_0,
                    f0.weapon_animation,
                    f1.weapon_animation,
                    f0.body,
                    f1.body,
                    f0.role,
                    a,
                    f0.gun,
                    f1.gun,
                    delta_ms,
                    r,
                )
                &&& f1.animation == f0.animation
            },
        },
        _ => true,
    }
}

/// A projectile weapon's cooldown runs while its holder is not shooting.
pub open spec fn gun_cooled(f0: &Fighter, f1: &Fighter, delta_ms: u64) -> bool {
    !(f0.states.current is Shooting) ==> f1.gun == match f0.gun {
        Some(g) => Some(ProjectileWeapon { shoot_delay: ticked(g.shoot_delay, delta_ms), ..g }),
        None => None,
    }
}

impl Fighter {
    pub open spec fn wf(&self) -> bool {
        &&& self.states.wf()
        &&& self.intents.wf()
        &&& self.movement_speed >= 0
        &&& forall|i: int| 0 <= i < self.attacks@.len() ==> attack_ok(#[trigger] self.attacks@[i])
        &&& self.inventory matches Some(item) ==> item_ok(item)
        &&& self.gun matches Some(g) ==> g.shoot_delay.wf() && coord_ok(g.bullet_velocity)
    }

    /// A fighter that idles at `position`, facing right, with nothing in its hands.
    pub fn new(
        id: u64,
        role: Role,
        position: Vec2,
        health: i64,
        movement_speed: i64,
        attacks: Vec<AttackMeta>,
    ) -> (r: Fighter)
        requires
            movement_speed >= 0,
            forall|i: int| 0 <= i < attacks@.len() ==> attack_ok(#[trigger] attacks@[i]),
        ensures
            r.wf(),
            r.id == id,
            r.role == role,
            r.states == FighterStates::spec_new(),
            r.intents@.len() == 0,
            r.body == (Body { position, velocity: Vec2 { x: 0, y: 0 }, facing: Facing::Right }),
            r.health == health,
            r.movement_speed == movement_speed,
            r.inventory is None,
            r.attacks@ == attacks@,
            r.melee_weapon is None,
            r.gun is None,
    {
        Fighter {
            id,
            role,
            states: FighterStates::new(),
            intents: StateTransitionIntents::new(),
            body: Body { position, velocity: Vec2::zero(), facing: Facing::Right },
            animation: AnimationTrack::new(),
            health,
            movement_speed,
            inventory: None,
            attacks,
            melee_weapon: None,
            gun: None,
            weapon_animation: AnimationTrack::new(),
        }
    }

    fn current_attack(&self) -> (r: Option<AttackMeta>)
        ensures
            r == if self.attacks@.len() > 0 {
                Some(self.attacks@.last())
            } else {
                None::<AttackMeta>
            },
    {
        let n = self.attacks.len();
        if n > 0 {
            Some(self.attacks[n - 1])
        } else {
            None
        }
    }

    /// The collect stage: a death when health is spent, a hitstun for each stunning hit on
    /// this fighter, then what the player's input asks (for a player given input).
    pub fn collect(&mut self, input: Option<PlayerInput>, events: &Vec<DamageEvent>)
        requires
            old(self).wf(),
            input matches Some(i) ==> axis_in_range(i.move_axis),
        ensures
            final(self).wf(),
            final(self).intents@ == old(self).intents@ + (if old(self).health <= 0 {
                seq![intent_to(FighterState::Dying(Dying))]
            } else {
                Seq::empty()
            }) + hitstun_intents(events@, old(self).id) + (if old(self).role == Role::Player
                && input is Some {
                player_intents(
                    input->0,
                    old(self).states,
                    old(self).inventory is Some,
                    old(self).movement_speed as int,
                    current_attack_name(old(self).attacks@),
                )
            } else {
                Seq::empty()
            }),
            final(self).states == if old(self).role == Role::Player && input is Some {
                chain_requested(input->0, old(self).states)
            } else {
                old(self).states
            },
            final(self).body == old(self).body,
            final(self).inventory == old(self).inventory,
            final(self).attacks@ == old(self).attacks@,
    {
        let ghost q0 = self.intents@;
        collect_fighter_eliminations(self.health, &mut self.intents);
        let ghost q1 = self.intents@;
        collect_hitstuns(self.id, events, &mut self.intents);
        let ghost q2 = self.intents@;
        if self.role == Role::Player {
            if let Some(i) = input {
                let name = match self.current_attack() {
                    Some(a) => a.name,
                    None => AttackName::Other,
                };
                let occupied = self.inventory.is_some();
                collect_player_actions(
                    &i,
                    &mut self.states,
                    &mut self.intents,
                    occupied,
                    self.movement_speed,
                    name,
                );
            }
        }
        proof {
            assert(q1 == q0 + (if self.health <= 0 {
                seq![intent_to(FighterState::Dying(Dying))]
            } else {
                Seq::empty()
            }));
        }
    }

    /// The transition stage: resolve the intents and apply the current state's exit rule.
    pub fn transition(&mut self) -> (changed: bool)
        requires
            old(self).wf(),
        ensures
            final(self).wf(),
            final(self).states == transitioned(old(self).states, old(self).intents@),
            final(self).intents@.len() == 0,
            final(self).body == old(self).body,
            final(self).inventory == old(self).inventory,
            final(self).attacks@ == old(self).attacks@,
    {
        transition_from_current(&mut self.states, &mut self.intents)
    }

    /// The handler stage: runs the handler of the current state for one tick of `delta_ms`,
    /// with the fighter's metadata and the item its current attack throws, when loaded.
    /// Moving falls back to idling; every other state keeps its kind (its exit is left to the
    /// next transition stage). A projectile weapon's cooldown runs also while not shooting.
    pub fn handle(
        &mut self,
        meta: Option<&FighterMeta>,
        attack_item: Option<ItemMeta>,
        delta_ms: u64,
    ) -> (r: Result<Vec<Command>, Skip>)
        requires
            old(self).wf(),
            meta matches Some(m) ==> coord_ok(m.collision_offset),
        ensures
            handler_kept(old(self), final(self)),
            handled(old(self), final(self), meta, attack_item, delta_ms, r),
            gun_cooled(old(self), final(self), delta_ms),
    {
        let shooting_now = match self.states.current {
            FighterState::Shooting(_) => true,
            _ => false,
        };
        if !shooting_now {
            if let Some(mut g) = self.gun {
                g.shoot_delay.tick(delta_ms);
                self.gun = Some(g);
            }
        }
        match self.states.current {
            FighterState::Idling(_) => {
                idling(&mut self.animation, &mut self.body);
                Ok(Vec::new())
            },
            FighterState::Moving(_) => {
                moving(&mut self.states, &mut self.animation, &mut self.body);
                Ok(Vec::new())
            },
            FighterState::HitStun(h) => {
                let mut h = h;
                hitstun(&mut h, &mut self.animation, &mut self.body, delta_ms);
                self.states.current = FighterState::HitStun(h);
                Ok(Vec::new())
            },
            FighterState::Dying(_) => {
                let mut out: Vec<Command> = Vec::new();
                if dying(&mut self.animation, &mut self.body) {
                    out.push(Command::Despawn);
                }
                proof {
                    if !out@.contains(Command::Despawn) {
                        assert(out@.len() == 0);
                    } else {
                        assert(out@[0] == Command::Despawn);
                    }
                }
                Ok(out)
            },
            FighterState::Chaining(_) | FighterState::Flopping(_) | FighterState::GroundSlam(_) => {
                self.handle_jumps(meta)
            },
            FighterState::Punching(_) | FighterState::BossBombThrow(_) | FighterState::ProjectileAttacking(
                _,
            ) => self.handle_throws(meta, attack_item),
            FighterState::MeleeAttacking(_) | FighterState::Shooting(_) => self.handle_weapons(delta_ms),
            _ => Ok(Vec::new()),
        }
    }

    fn handle_jumps(&mut self, meta: Option<&FighterMeta>) -> (r: Result<Vec<Command>, Skip>)
        requires
            old(self).wf(),
            old(self).states.current is Chaining || old(self).states.current is Flopping
                || old(self).states.current is GroundSlam,
            meta matches Some(m) ==> coord_ok(m.collision_offset),
        ensures
            handler_kept(old(self), final(self)),
            handled(old(self), final(self), meta, None, 0, r),
            final(self).gun == old(self).gun,
    {
        let attack = self.current_attack();
        if attack.is_some() {
            proof {
                assert(attack_ok(self.attacks@[self.attacks@.len() - 1]));
            }
        }
        match self.states.current {
            FighterState::Chaining(c) => {
                let mut c = c;
                let r = chaining(&mut c, &mut self.animation, &mut self.body, self.role, &self.attacks, meta);
                self.states.current = FighterState::Chaining(c);
                r
            },
            FighterState::Flopping(f) => {
                let a = match attack {
                    Some(a) => a,
                    None => {
                        return Err(Skip::MetadataNotReady);
                    },
                };
                let mut f = f;
                let r = flopping(&mut f, &mut self.animation, &mut self.body, self.role, &a, meta);
                self.states.current = FighterState::Flopping(f);
                r
            },
            FighterState::GroundSlam(g) => {
                let a = match attack {
                    Some(a) => a,
                    None => {
                        return Err(Skip::MetadataNotReady);
                    },
                };
                let mut g = g;
                let r = ground_slam(&mut g, &mut self.animation, &mut self.body, self.role, &a, meta);
                self.states.current = FighterState::GroundSlam(g);
                r
            },
            _ => Ok(Vec::new()),
        }
    }

    fn handle_throws(&mut self, meta: Option<&FighterMeta>, attack_item: Option<ItemMeta>) -> (r:
        Result<Vec<Command>, Skip>)
        requires
            old(self).wf(),
            old(self).states.current is Punching || old(self).states.current is BossBombThrow
                || old(self).states.current is ProjectileAttacking,
            meta matches Some(m) ==> coord_ok(m.collision_offset),
        ensures
            handler_kept(old(self), final(self)),
            handled(old(self), final(self), meta, attack_item, 0, r),
            final(self).gun == old(self).gun,
    {
        let a = match self.current_attack() {
            Some(a) => a,
            None => {
                return Err(Skip::MetadataNotReady);
            },
        };
        proof {
            assert(attack_ok(self.attacks@[self.attacks@.len() - 1]));
        }
        match self.states.current {
            FighterState::Punching(p) => {
                let mut p = p;
                let r = punching(&mut p, &mut self.animation, &mut self.body, self.role, &a, meta);
                self.states.current = FighterState::Punching(p);
                r
            },
            FighterState::BossBombThrow(b) => {
                let mut b = b;
                let r = bomb_throw(&mut b, &mut self.animation, &mut self.body, self.role, &a, attack_item);
                self.states.current = FighterState::BossBombThrow(b);
                r
            },
            FighterState::ProjectileAttacking(p) => {
                let mut p = p;
                let r = projectile_attacking(
                    &mut p,
                    &mut self.animation,
                    &mut self.body,
                    self.role,
                    &a,
                    attack_item,
                );
                self.states.current = FighterState::ProjectileAttacking(p);
                r
            },
            _ => Ok(Vec::new()),
        }
    }

    fn handle_weapons(&mut self, delta_ms: u64) -> (r: Result<Vec<Command>, Skip>)
        requires
            old(self).wf(),
            old(self).states.current is MeleeAttacking || old(self).states.current is Shooting,
        ensures
            handler_kept(old(self), final(self)),
            handled(old(self), final(self), None, None, delta_ms, r),
            old(self).states.current is MeleeAttacking ==> final(self).gun == old(self).gun,
    {
        let a = match self.current_attack() {
            Some(a) => a,
            None => {
                return Err(Skip::MetadataNotReady);
            },
        };
        proof {
            assert(attack_ok(self.attacks@[self.attacks@.len() - 1]));
        }
        match self.states.current {
            FighterState::MeleeAttacking(m) => {
                let mut m = m;
                let r = melee_attacking(
                    &mut m,
                    &mut self.weapon_animation,
                    &mut self.body,
                    self.role,
                    &a,
                    self.melee_weapon,
                );
                self.states.current = FighterState::MeleeAttacking(m);
                r
            },
            FighterState::Shooting(s) => {
                let mut s = s;
                let r = shooting(
                    &mut s,
                    &mut self.weapon_animation,
                    &mut self.body,
                    self.role,
                    &a,
                    &mut self.gun,
                    delta_ms,
                );
                self.states.current = FighterState::Shooting(s);
                r
            },
            _ => Ok(Vec::new()),
        }
    }

    /// The throwing state: throws what the fighter carries (see `items::throwing`).
    pub fn throw(&mut self) -> (r: Vec<ItemCommand>)
        requires
            old(self).wf(),
        ensures
            final(self).wf(),
            final(self).inventory is None,
            exists|vj: u32, sj: u32|
                JITTER_MIN <= vj < JITTER_END && JITTER_MIN <= sj < JITTER_END && r@
                    == #[trigger] thrown(old(self).inventory, old(self).body.facing, vj, sj),
            final(self).states == (FighterStates {
                throwing: false,
                holding: match old(self).inventory {
                    Some(item) => old(self).states.holding && !is_held_kind(item.kind),
                    None => old(self).states.holding,
                },
                ..old(self).states
            }),
            final(self).attacks@ == match old(self).inventory {
                Some(item) => if is_weapon_kind(item.kind) && old(self).attacks@.len() > 0 {
                    old(self).attacks@.drop_last()
                } else {
                    old(self).attacks@
                },
                None => old(self).attacks@,
            },
            final(self).intents@ == old(self).intents@,
            final(self).body == old(self).body,
    {
        let r = throwing(&mut self.states, &mut self.inventory, &mut self.attacks, self.body.facing);
        proof {
            assert forall|i: int| 0 <= i < self.attacks@.len() implies attack_ok(
                #[trigger] self.attacks@[i],
            ) by {
                assert(self.attacks@[i] == old(self).attacks@[i]);
            }
        }
        r
    }

    /// The grabbing state: takes the ground item the pickup pass gave this fighter, if any
    /// (see `items::grab_item`).
    pub fn grab(&mut self, picked: Option<GroundItem>) -> (r: Vec<ItemCommand>)
        requires
            old(self).wf(),
            picked matches Some(g) ==> item_ok(g.item) && match g.item.kind {
                crate::meta::ItemKind::MeleeWeapon { attack, .. } => attack_ok(attack),
                crate::meta::ItemKind::ProjectileWeapon { attack, .. } => attack_ok(attack),
                _ => true,
            },
        ensures
            final(self).wf(),
            final(self).states == (FighterStates { grabbing: false, ..old(self).states }),
            final(self).body == old(self).body,
            (old(self).inventory is Some || picked is None) ==> {
                &&& r@ == Seq::<ItemCommand>::empty()
                &&& final(self).inventory == old(self).inventory
                &&& final(self).intents@ == old(self).intents@
                &&& final(self).attacks@ == old(self).attacks@
            },
            old(self).inventory is None && picked is Some ==> {
                let g = picked->0;
                &&& r@ == grab_commands(g)
                &&& final(self).inventory == if g.item.kind is Script {
                    None
                } else {
                    Some(g.item)
                }
                &&& final(self).intents@ == if is_held_kind(g.item.kind) {
                    old(self).intents@.push(intent_to(FighterState::Holding(Holding)))
                } else {
                    old(self).intents@
                }
                &&& final(self).attacks@ == match weapon_attack(g.item.kind) {
                    Some(a) => old(self).attacks@.push(a),
                    None => old(self).attacks@,
                }
            },
    {
        let r = grab_item(&mut self.states, &mut self.intents, &mut self.inventory, &mut self.attacks, picked);
        proof {
            assert forall|i: int| 0 <= i < self.attacks@.len() implies attack_ok(
                #[trigger] self.attacks@[i],
            ) by {
                if i < old(self).attacks@.len() {
                    assert(self.attacks@[i] == old(self).attacks@[i]);
                }
            }
        }
        r
    }
}

} // verus!
