use fighter_state::audio::{animation_audio_playback, AnimationAudioPlayback, AudioAction};
use fighter_state::attacks::{bomb_throw, chaining, flopping, ground_slam, projectile_attacking, punching};
use fighter_state::geometry::{Facing, Vec2};
use fighter_state::handlers::{dying, hitstun, idling, AnimationTrack, Body, Command, Role, Side, Skip};
use fighter_state::meta::{AttackFrames, AttackMeta, AttackName, BombMeta, FighterMeta, GunMeta, ItemKind, ItemMeta};
use fighter_state::state::{
    BossBombThrow, Chaining, Clip, Flopping, GroundSlam, HitStun, MeleeAttacking, ProjectileAttacking,
    Punching, Shooting, Timer,
};
use fighter_state::weapons::{melee_attacking, shooting, MeleeWeapon, ProjectileWeapon};

fn attack(name: AttackName) -> AttackMeta {
    AttackMeta {
        name,
        damage: 12,
        hitbox_offset: Vec2::new(30, 10),
        hitbox_size: Vec2::new(20, 20),
        velocity: Some(Vec2::new(150, 40)),
        hitstun_duration_ms: 200,
        frames: AttackFrames { startup: 3, active: 5, recovery: 8 },
    }
}

fn meta(sounds: Vec<Clip>) -> FighterMeta {
    FighterMeta { collision_offset: 16, effect_clips: sounds }
}

fn body(facing: Facing) -> Body {
    Body { position: Vec2::new(1000, 500), velocity: Vec2::new(7, 7), facing }
}

fn bomb_item() -> ItemMeta {
    ItemMeta {
        id: 42,
        kind: ItemKind::Bomb {
            bomb: BombMeta { throw_velocity: Vec2::new(1000, 500), gravity: 980, lifetime_ms: 3000 },
        },
        image_height: 24,
    }
}

#[test]
fn chain_combo_reaches_finisher_once() {
    let attacks = vec![attack(AttackName::Punch), attack(AttackName::Chain)];
    let m = meta(vec![Clip::Chaining, Clip::Followup]);
    let mut c = Chaining::new();
    let mut anim = AnimationTrack::new();
    let mut b = body(Facing::Right);

    let out = chaining(&mut c, &mut anim, &mut b, Role::Player, &attacks, Some(&m)).unwrap();
    assert!(c.has_started);
    assert_eq!(anim.current_clip, Some(Clip::Chaining));
    assert_eq!(out.len(), 2);
    assert_eq!(out[0], Command::PlaySound(Clip::Chaining));
    assert!(matches!(out[1], Command::SpawnAttack(_)));
    assert_eq!(c.link, 0);

    // The hit passes its active frame: the combo may be extended.
    anim.current_frame = 6;
    let out = chaining(&mut c, &mut anim, &mut b, Role::Player, &attacks, Some(&m)).unwrap();
    assert!(out.is_empty());
    assert!(c.can_extend);

    c.continue_chain = true;
    let out = chaining(&mut c, &mut anim, &mut b, Role::Player, &attacks, Some(&m)).unwrap();
    assert_eq!(c.link, 1);
    assert!(!c.transition_to_final);
    assert_eq!(anim.current_clip, Some(Clip::Followup));
    assert_eq!(anim.current_frame, 2);
    assert_eq!(out[0], Command::PlaySound(Clip::Followup));
    assert!(!c.can_extend);

    anim.current_frame = 6;
    chaining(&mut c, &mut anim, &mut b, Role::Player, &attacks, Some(&m)).unwrap();
    c.continue_chain = true;
    chaining(&mut c, &mut anim, &mut b, Role::Player, &attacks, Some(&m)).unwrap();
    assert_eq!(c.link, 2);
    assert!(c.transition_to_final);

    // A third request during the finisher changes nothing.
    anim.current_frame = 6;
    chaining(&mut c, &mut anim, &mut b, Role::Player, &attacks, Some(&m)).unwrap();
    c.continue_chain = true;
    let out = chaining(&mut c, &mut anim, &mut b, Role::Player, &attacks, Some(&m)).unwrap();
    assert!(out.is_empty());
    assert_eq!(c.link, 2);
    assert!(c.transition_to_final);
}

#[test]
fn chain_without_request_flags_idle_when_done() {
    let attacks = vec![attack(AttackName::Chain)];
    let m = meta(vec![]);
    let mut c = Chaining::new();
    let mut anim = AnimationTrack::new();
    let mut b = body(Facing::Left);
    let out = chaining(&mut c, &mut anim, &mut b, Role::Player, &attacks, Some(&m)).unwrap();
    assert_eq!(out.len(), 1);
    anim.current_frame = 4;
    chaining(&mut c, &mut anim, &mut b, Role::Player, &attacks, Some(&m)).unwrap();
    assert_eq!(b.velocity, Vec2::new(-100_000, 0));
    anim.finished = true;
    chaining(&mut c, &mut anim, &mut b, Role::Player, &attacks, Some(&m)).unwrap();
    assert!(c.transition_to_idle);
    assert!(!c.transition_to_final);
}

#[test]
fn chain_needs_player_and_chain_attack() {
    let m = meta(vec![]);
    let mut c = Chaining::new();
    let mut anim = AnimationTrack::new();
    let mut b = body(Facing::Left);
    let r = chaining(&mut c, &mut anim, &mut b, Role::Enemy, &vec![attack(AttackName::Chain)], Some(&m));
    assert_eq!(r, Err(Skip::UnsupportedFighterRole));
    let r = chaining(&mut c, &mut anim, &mut b, Role::Player, &vec![attack(AttackName::Punch)], Some(&m));
    assert_eq!(r, Err(Skip::MetadataNotReady));
    assert!(!c.has_started);
}

#[test]
fn flop_rises_then_falls_then_lands() {
    let a = attack(AttackName::Flop);
    let m = meta(vec![Clip::Attacking]);
    let mut f = Flopping { start_y: 0, has_started: false, is_finished: false };
    let mut anim = AnimationTrack::new();
    let mut b = body(Facing::Left);
    let out = flopping(&mut f, &mut anim, &mut b, Role::Player, &a, Some(&m)).unwrap();
    assert_eq!(f.start_y, 500);
    assert_eq!(out.len(), 2);
    match out[0] {
        Command::SpawnAttack(s) => {
            assert_eq!(s.offset, Vec2::new(-30, 26));
            assert_eq!(s.side, Side::Player);
            assert_eq!(s.pushback, Vec2::new(-150, 0));
            assert_eq!(s.damage, 12);
        }
        _ => panic!("expected an attack"),
    }
    assert_eq!(out[1], Command::PlaySound(Clip::Attacking));
    assert_eq!(b.velocity, Vec2::new(-200_000, 66_666));

    anim.current_frame = 4;
    b.position.y = 900;
    flopping(&mut f, &mut anim, &mut b, Role::Player, &a, Some(&m)).unwrap();
    assert_eq!(b.velocity, Vec2::new(-200_000, -100_000));

    anim.current_frame = 9;
    flopping(&mut f, &mut anim, &mut b, Role::Player, &a, Some(&m)).unwrap();
    assert_eq!(b.velocity, Vec2::new(0, 0));

    anim.finished = true;
    flopping(&mut f, &mut anim, &mut b, Role::Player, &a, Some(&m)).unwrap();
    assert!(f.is_finished);
    assert_eq!(b.position.y, 500);
    assert_eq!(b.velocity, Vec2::zero());
}

#[test]
fn flop_skips_without_role_or_metadata() {
    let a = attack(AttackName::Flop);
    let mut f = Flopping { start_y: 0, has_started: false, is_finished: false };
    let mut anim = AnimationTrack::new();
    let mut b = body(Facing::Right);
    let m = meta(vec![]);
    assert_eq!(
        flopping(&mut f, &mut anim, &mut b, Role::Unaligned, &a, Some(&m)),
        Err(Skip::UnsupportedFighterRole)
    );
    assert_eq!(flopping(&mut f, &mut anim, &mut b, Role::Enemy, &a, None), Err(Skip::MetadataNotReady));
    assert!(!f.has_started);
    assert_eq!(b.velocity, Vec2::new(7, 7));
}

#[test]
fn enemy_punch_hits_players() {
    let a = attack(AttackName::Punch);
    let m = meta(vec![]);
    let mut p = Punching { has_started: false, is_finished: false };
    let mut anim = AnimationTrack::new();
    let mut b = body(Facing::Right);
    let out = punching(&mut p, &mut anim, &mut b, Role::Enemy, &a, Some(&m)).unwrap();
    assert_eq!(out.len(), 1);
    match out[0] {
        Command::SpawnAttack(s) => {
            assert_eq!(s.side, Side::Enemy);
            assert_eq!(s.offset, Vec2::new(30, 26));
            assert_eq!(s.pushback, Vec2::new(150, 0));
        }
        _ => panic!("expected an attack"),
    }
    assert_eq!(b.velocity, Vec2::zero());
    anim.finished = true;
    let out = punching(&mut p, &mut anim, &mut b, Role::Enemy, &a, Some(&m)).unwrap();
    assert!(out.is_empty());
    assert!(p.is_finished);
}

#[test]
fn ground_slam_profile() {
    let a = attack(AttackName::Other);
    let m = meta(vec![]);
    let mut g = GroundSlam { start_y: 0, has_started: false, is_finished: false };
    let mut anim = AnimationTrack::new();
    let mut b = body(Facing::Right);
    assert_eq!(
        ground_slam(&mut g, &mut anim, &mut b, Role::Enemy, &a, Some(&m)),
        Err(Skip::UnsupportedFighterRole)
    );
    ground_slam(&mut g, &mut anim, &mut b, Role::Boss, &a, Some(&m)).unwrap();
    assert_eq!(b.velocity, Vec2::new(50_000, 266_666));
    anim.current_frame = 3;
    ground_slam(&mut g, &mut anim, &mut b, Role::Boss, &a, Some(&m)).unwrap();
    assert_eq!(b.velocity, Vec2::new(0, -400_000));
    anim.finished = true;
    b.position.y = 2000;
    ground_slam(&mut g, &mut anim, &mut b, Role::Boss, &a, Some(&m)).unwrap();
    assert!(g.is_finished);
    assert_eq!(b.position.y, 500);
}

#[test]
fn boss_throws_two_bombs() {
    let a = attack(AttackName::Other);
    let mut t = BossBombThrow { has_started: false, is_finished: false, thrown: false };
    let mut anim = AnimationTrack::new();
    let mut b = body(Facing::Left);
    let out = bomb_throw(&mut t, &mut anim, &mut b, Role::Boss, &a, Some(bomb_item())).unwrap();
    assert!(out.is_empty());
    anim.current_frame = 3;
    let out = bomb_throw(&mut t, &mut anim, &mut b, Role::Boss, &a, Some(bomb_item())).unwrap();
    assert_eq!(out, vec![Command::SpawnBomb { item: 42, lifetime_ms: 3000 }]);
    assert!(t.thrown);
    let out = bomb_throw(&mut t, &mut anim, &mut b, Role::Boss, &a, Some(bomb_item())).unwrap();
    assert!(out.is_empty());
    anim.current_frame = 5;
    let out = bomb_throw(&mut t, &mut anim, &mut b, Role::Boss, &a, Some(bomb_item())).unwrap();
    assert_eq!(out.len(), 1);
    assert!(!t.thrown);
    anim.finished = true;
    bomb_throw(&mut t, &mut anim, &mut b, Role::Boss, &a, Some(bomb_item())).unwrap();
    assert!(t.is_finished);
}

#[test]
fn bomb_throw_needs_a_bomb() {
    let a = attack(AttackName::Other);
    let mut t = BossBombThrow { has_started: false, is_finished: false, thrown: false };
    let mut anim = AnimationTrack::new();
    let mut b = body(Facing::Left);
    let rock = ItemMeta { id: 1, kind: ItemKind::Throwable { damage: 3 }, image_height: 8 };
    assert_eq!(bomb_throw(&mut t, &mut anim, &mut b, Role::Boss, &a, Some(rock)), Err(Skip::KindMismatch));
    assert_eq!(bomb_throw(&mut t, &mut anim, &mut b, Role::Boss, &a, None), Err(Skip::MetadataNotReady));
    assert!(!t.has_started);
}

#[test]
fn enemy_throws_projectile_once() {
    let a = attack(AttackName::Other);
    let rock = ItemMeta { id: 5, kind: ItemKind::Throwable { damage: 3 }, image_height: 8 };
    let mut p = ProjectileAttacking { has_started: false, is_finished: false, thrown: false };
    let mut anim = AnimationTrack::new();
    let mut b = body(Facing::Left);
    assert_eq!(
        projectile_attacking(&mut p, &mut anim, &mut b, Role::Player, &a, Some(rock)),
        Err(Skip::UnsupportedFighterRole)
    );
    projectile_attacking(&mut p, &mut anim, &mut b, Role::Enemy, &a, Some(rock)).unwrap();
    anim.current_frame = 3;
    let out = projectile_attacking(&mut p, &mut anim, &mut b, Role::Enemy, &a, Some(rock)).unwrap();
    assert_eq!(out, vec![Command::ThrowProjectile { item: 5, by_enemy: true }]);
    let out = projectile_attacking(&mut p, &mut anim, &mut b, Role::Enemy, &a, Some(rock)).unwrap();
    assert!(out.is_empty());
}

#[test]
fn melee_swing_needs_weapon() {
    let a = attack(AttackName::Melee);
    let mut s = MeleeAttacking { has_started: false, is_finished: false };
    let mut anim = AnimationTrack::new();
    let mut b = body(Facing::Left);
    assert_eq!(melee_attacking(&mut s, &mut anim, &mut b, Role::Player, &a, None), Err(Skip::WeaponMissing));
    let w = MeleeWeapon { attack: a, swing_sound: true };
    let out = melee_attacking(&mut s, &mut anim, &mut b, Role::Player, &a, Some(w)).unwrap();
    assert_eq!(out.len(), 2);
    match out[0] {
        Command::SpawnWeaponAttack(sp) => {
            assert_eq!(sp.offset, Vec2::new(30, 10));
            assert_eq!(sp.pushback, Vec2::new(-150, 0));
        }
        _ => panic!("expected a weapon attack"),
    }
    assert_eq!(out[1], Command::PlayWeaponSound(Clip::Slashing));
    assert_eq!(anim.current_clip, Some(Clip::Slashing));
}

#[test]
fn shot_waits_for_ammo_and_cooldown() {
    let a = attack(AttackName::Projectile);
    let gun = GunMeta { bullet_velocity: 9000, bullet_lifetime_ms: 700, ammo: 1, shoot_delay_ms: 300 };
    let mut weapon = Some(ProjectileWeapon::equip(a, gun, false));
    let mut s = Shooting { has_started: false, is_finished: false, spawned_bullet: false };
    let mut anim = AnimationTrack::new();
    let mut b = body(Facing::Left);
    let out = shooting(&mut s, &mut anim, &mut b, Role::Player, &a, &mut weapon, 16).unwrap();
    assert_eq!(out, vec![Command::SpawnParticles]);
    assert!(s.has_started);
    anim.current_frame = 3;
    let out = shooting(&mut s, &mut anim, &mut b, Role::Player, &a, &mut weapon, 16).unwrap();
    assert_eq!(out.len(), 1);
    match out[0] {
        Command::SpawnBullet { hitbox, velocity, lifetime_ms } => {
            assert_eq!(velocity, Vec2::new(-9000, 0));
            assert_eq!(lifetime_ms, 700);
            assert_eq!(hitbox.offset, Vec2::new(-30, 10));
            assert_eq!(hitbox.pushback, Vec2::new(-150, 40));
        }
        _ => panic!("expected a bullet"),
    }
    assert_eq!(weapon.unwrap().ammo, 0);
    let out = shooting(&mut s, &mut anim, &mut b, Role::Player, &a, &mut weapon, 16).unwrap();
    assert!(out.is_empty());
    anim.finished = true;
    shooting(&mut s, &mut anim, &mut b, Role::Player, &a, &mut weapon, 16).unwrap();
    assert!(s.is_finished);
    assert_eq!(anim.current_clip, Some(Clip::Idle));

    // Out of ammo: a new shot never starts.
    let mut s2 = Shooting { has_started: false, is_finished: false, spawned_bullet: false };
    let out = shooting(&mut s2, &mut anim, &mut b, Role::Player, &a, &mut weapon, 1000).unwrap();
    assert!(out.is_empty());
    assert!(!s2.has_started);

    let mut none: Option<ProjectileWeapon> = None;
    assert_eq!(
        shooting(&mut s2, &mut anim, &mut b, Role::Player, &a, &mut none, 16),
        Err(Skip::WeaponMissing)
    );
}

#[test]
fn cooldown_gates_second_shot() {
    let a = attack(AttackName::Projectile);
    let gun = GunMeta { bullet_velocity: 9000, bullet_lifetime_ms: 700, ammo: 5, shoot_delay_ms: 300 };
    let mut weapon = Some(ProjectileWeapon::equip(a, gun, true));
    let mut anim = AnimationTrack::new();
    let mut b = body(Facing::Right);
    let mut s = Shooting { has_started: false, is_finished: false, spawned_bullet: false };
    let out = shooting(&mut s, &mut anim, &mut b, Role::Player, &a, &mut weapon, 0).unwrap();
    assert_eq!(out, vec![Command::SpawnParticles, Command::PlayWeaponSound(Clip::Shooting)]);
    let mut s2 = Shooting { has_started: false, is_finished: false, spawned_bullet: false };
    let out = shooting(&mut s2, &mut anim, &mut b, Role::Player, &a, &mut weapon, 100).unwrap();
    assert!(out.is_empty());
    let out = shooting(&mut s2, &mut anim, &mut b, Role::Player, &a, &mut weapon, 200).unwrap();
    assert_eq!(out.len(), 2);
}

#[test]
fn hitstun_picks_knockback_clip() {
    let mut anim = AnimationTrack::new();
    let mut b = body(Facing::Right);
    let mut h = HitStun { pushback: Vec2::new(-300, 0), timer: Timer::from_millis(100) };
    hitstun(&mut h, &mut anim, &mut b, 30);
    assert_eq!(anim.current_clip, Some(Clip::KnockedLeft));
    assert_eq!(b.velocity, Vec2::new(-300, 0));
    assert_eq!(h.timer.elapsed_ms, 30);
    anim.current_frame = 1;
    hitstun(&mut h, &mut anim, &mut b, 30);
    assert_eq!(anim.current_frame, 1);

    let mut anim = AnimationTrack::new();
    let mut b = body(Facing::Left);
    let mut h = HitStun { pushback: Vec2::new(-300, 0), timer: Timer::from_millis(100) };
    hitstun(&mut h, &mut anim, &mut b, 30);
    assert_eq!(anim.current_clip, Some(Clip::KnockedRight));

    let mut anim = AnimationTrack::new();
    let mut h = HitStun { pushback: Vec2::zero(), timer: Timer::from_millis(100) };
    hitstun(&mut h, &mut anim, &mut b, 30);
    assert_eq!(anim.current_clip, Some(Clip::Hitstun));
}

#[test]
fn dying_plays_then_despawns() {
    let mut anim = AnimationTrack::new();
    let mut b = body(Facing::Right);
    assert!(!dying(&mut anim, &mut b));
    assert_eq!(anim.current_clip, Some(Clip::Dying));
    assert_eq!(b.velocity, Vec2::zero());
    assert!(!dying(&mut anim, &mut b));
    anim.finished = true;
    assert!(dying(&mut anim, &mut b));
}

#[test]
fn idling_stops_and_loops() {
    let mut anim = AnimationTrack::new();
    let mut b = body(Facing::Right);
    idling(&mut anim, &mut b);
    assert_eq!(anim.current_clip, Some(Clip::Idle));
    assert!(anim.repeat);
    assert_eq!(b.velocity, Vec2::zero());
    anim.current_frame = 3;
    idling(&mut anim, &mut b);
    assert_eq!(anim.current_frame, 3);
}

#[test]
fn clip_names() {
    assert_eq!(Clip::BombThrow.name(), "bomb_throw");
    assert_eq!(Clip::KnockedLeft.name(), "knocked_left");
    assert_eq!(Clip::Idle.name(), "idle");
}

#[test]
fn audio_plays_each_frame_once_and_detaches() {
    let mut p = AnimationAudioPlayback::new(Clip::Attacking, vec![(0, 11), (2, 12), (2, 13)]);
    let mut anim = AnimationTrack::new();
    anim.play(Clip::Attacking, false);
    assert_eq!(animation_audio_playback(&mut p, &anim), AudioAction::Play(11));
    assert_eq!(animation_audio_playback(&mut p, &anim), AudioAction::Nothing);
    anim.current_frame = 1;
    assert_eq!(animation_audio_playback(&mut p, &anim), AudioAction::Nothing);
    anim.current_frame = 2;
    assert_eq!(animation_audio_playback(&mut p, &anim), AudioAction::Play(12));
    assert_eq!(p.last_played, Some(2));
    anim.play(Clip::Idle, true);
    assert_eq!(animation_audio_playback(&mut p, &anim), AudioAction::Detach);
}
