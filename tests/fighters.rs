use fighter_state::collect::{collect_player_actions, DamageEvent, PlayerInput};
use fighter_state::fighter::Fighter;
use fighter_state::geometry::{Facing, Vec2};
use fighter_state::handlers::{AnimationTrack, Command, Role};
use fighter_state::intents::StateTransitionIntents;
use fighter_state::items::{grab_item, pick_items, throw_item, throwing, Grabber, GroundItem, ItemCommand};
use fighter_state::meta::{AttackFrames, AttackMeta, AttackName, BombMeta, FighterMeta, GunMeta, ItemKind, ItemMeta};
use fighter_state::state::{
    Chaining, Clip, FighterState, FighterStates, Grabbing, Holding, Idling, Moving, Punching, Throwing,
};
use fighter_state::weapons::MeleeWeapon;

fn attack(name: AttackName) -> AttackMeta {
    AttackMeta {
        name,
        damage: 5,
        hitbox_offset: Vec2::new(30, 10),
        hitbox_size: Vec2::new(20, 20),
        velocity: None,
        hitstun_duration_ms: 100,
        frames: AttackFrames { startup: 2, active: 4, recovery: 6 },
    }
}

fn rock(id: u64) -> ItemMeta {
    ItemMeta { id, kind: ItemKind::Throwable { damage: 4 }, image_height: 10 }
}

fn bomb() -> ItemMeta {
    ItemMeta {
        id: 9,
        kind: ItemKind::Bomb {
            bomb: BombMeta { throw_velocity: Vec2::new(1000, 500), gravity: 980, lifetime_ms: 3000 },
        },
        image_height: 24,
    }
}

fn no_input() -> PlayerInput {
    PlayerInput {
        attack_just_pressed: false,
        throw_just_pressed: false,
        move_pressed: false,
        move_axis: Vec2::zero(),
    }
}

#[test]
fn movement_lasts_one_tick_without_input() {
    let mut f = Fighter::new(1, Role::Player, Vec2::new(0, 0), 10, 3000, vec![attack(AttackName::Punch)]);
    let meta = FighterMeta { collision_offset: 0, effect_clips: vec![] };
    let events: Vec<DamageEvent> = vec![];

    // Tick N: the stick is held left at half tilt.
    let input = PlayerInput { move_pressed: true, move_axis: Vec2::new(-500, 0), ..no_input() };
    f.collect(Some(input), &events);
    assert!(f.transition());
    assert_eq!(f.states.current, FighterState::Moving(Moving { velocity: Vec2::new(-1500, 0) }));
    f.handle(Some(&meta), None, 16).unwrap();
    assert_eq!(f.body.velocity, Vec2::new(-1500, 0));
    assert_eq!(f.body.facing, Facing::Left);
    assert_eq!(f.animation.current_clip, Some(Clip::Running));
    assert_eq!(f.states.current, FighterState::Idling(Idling));

    // Tick N+1: nothing held.
    f.collect(Some(no_input()), &events);
    assert!(!f.transition());
    f.handle(Some(&meta), None, 16).unwrap();
    assert_eq!(f.states.current, FighterState::Idling(Idling));
    assert_eq!(f.body.velocity, Vec2::zero());
    assert_eq!(f.animation.current_clip, Some(Clip::Idle));
}

#[test]
fn attack_press_queues_current_attack() {
    let mut f = Fighter::new(1, Role::Player, Vec2::new(0, 0), 10, 1000, vec![attack(AttackName::Chain), attack(AttackName::Punch)]);
    let input = PlayerInput { attack_just_pressed: true, ..no_input() };
    f.collect(Some(input), &vec![]);
    assert_eq!(f.intents.len(), 1);
    assert_eq!(f.intents.queue[0].priority, 30);
    f.transition();
    assert_eq!(f.states.current, FighterState::Punching(Punching { has_started: false, is_finished: false }));
    let meta = FighterMeta { collision_offset: 4, effect_clips: vec![Clip::Attacking] };
    let out = f.handle(Some(&meta), None, 16).unwrap();
    assert_eq!(out.len(), 2);
    assert_eq!(out[1], Command::PlaySound(Clip::Attacking));
}

#[test]
fn attack_press_during_combo_continues_it() {
    let mut states = FighterStates::new();
    states.current = FighterState::Chaining(Chaining::new());
    let mut q = StateTransitionIntents::new();
    let input = PlayerInput { attack_just_pressed: true, ..no_input() };
    collect_player_actions(&input, &mut states, &mut q, false, 1000, AttackName::Chain);
    assert!(q.is_empty());
    match states.current {
        FighterState::Chaining(c) => assert!(c.continue_chain),
        _ => panic!("expected a combo"),
    }
}

#[test]
fn holding_blocks_attacks() {
    let mut states = FighterStates::new();
    states.holding = true;
    let mut q = StateTransitionIntents::new();
    let input = PlayerInput { attack_just_pressed: true, ..no_input() };
    collect_player_actions(&input, &mut states, &mut q, true, 1000, AttackName::Punch);
    assert!(q.is_empty());
}

#[test]
fn throw_press_throws_or_grabs() {
    let mut states = FighterStates::new();
    let mut q = StateTransitionIntents::new();
    let input = PlayerInput { throw_just_pressed: true, ..no_input() };
    collect_player_actions(&input, &mut states, &mut q, true, 1000, AttackName::Punch);
    collect_player_actions(&input, &mut states, &mut q, false, 1000, AttackName::Punch);
    assert_eq!(q.len(), 2);
    assert_eq!(q.queue[0].state, FighterState::Throwing(Throwing));
    assert!(q.queue[0].is_additive);
    assert_eq!(q.queue[0].priority, 15);
    assert_eq!(q.queue[1].state, FighterState::Grabbing(Grabbing));
}

#[test]
fn move_velocity_scales_with_speed() {
    let mut states = FighterStates::new();
    let mut q = StateTransitionIntents::new();
    let input = PlayerInput { move_pressed: true, move_axis: Vec2::new(707, -707), ..no_input() };
    collect_player_actions(&input, &mut states, &mut q, false, 250_000, AttackName::Punch);
    assert_eq!(q.queue[0].state, FighterState::Moving(Moving { velocity: Vec2::new(176_750, -176_750) }));
    let input = PlayerInput { move_pressed: true, move_axis: Vec2::new(-1, 3), ..no_input() };
    collect_player_actions(&input, &mut states, &mut q, false, 333, AttackName::Punch);
    assert_eq!(q.queue[1].state, FighterState::Moving(Moving { velocity: Vec2::new(0, 0) }));
}

#[test]
fn two_grabbers_one_item() {
    let grabbers = vec![
        Grabber { position: Vec2::new(0, 0), has_item: false },
        Grabber { position: Vec2::new(10, 0), has_item: false },
    ];
    let items = vec![GroundItem { entity: 77, position: Vec2::new(5, 0), item: rock(3) }];
    let picks = pick_items(&grabbers, &items, 20);
    assert_eq!(picks, vec![Some(0), None]);

    let mut states = FighterStates::new();
    states.grabbing = true;
    let mut q = StateTransitionIntents::new();
    let mut inv: Option<ItemMeta> = None;
    let mut attacks: Vec<AttackMeta> = vec![];
    let out = grab_item(&mut states, &mut q, &mut inv, &mut attacks, Some(items[0]));
    assert_eq!(out, vec![ItemCommand::PickUp { entity: 77 }]);
    assert_eq!(inv, Some(rock(3)));
    assert!(!states.grabbing);

    let mut states2 = FighterStates::new();
    states2.grabbing = true;
    let mut inv2: Option<ItemMeta> = None;
    let out = grab_item(&mut states2, &mut q, &mut inv2, &mut attacks, None);
    assert!(out.is_empty());
    assert_eq!(inv2, None);
    assert!(!states2.grabbing);
}

#[test]
fn grab_skips_far_and_full_hands() {
    let grabbers = vec![
        Grabber { position: Vec2::new(0, 0), has_item: true },
        Grabber { position: Vec2::new(100, 100), has_item: false },
        Grabber { position: Vec2::new(3, 4), has_item: false },
    ];
    let items = vec![
        GroundItem { entity: 1, position: Vec2::new(0, 0), item: rock(1) },
        GroundItem { entity: 2, position: Vec2::new(0, 0), item: rock(2) },
    ];
    let picks = pick_items(&grabbers, &items, 5);
    assert_eq!(picks, vec![None, None, Some(0)]);
    let picks = pick_items(&grabbers, &items, 4);
    assert_eq!(picks, vec![None, None, None]);
}

#[test]
fn grabbing_box_queues_holding() {
    let mut states = FighterStates::new();
    let mut q = StateTransitionIntents::new();
    let mut inv: Option<ItemMeta> = None;
    let mut attacks: Vec<AttackMeta> = vec![];
    let crate_item = ItemMeta { id: 4, kind: ItemKind::BreakableBox { contents: 8 }, image_height: 30 };
    let out = grab_item(&mut states, &mut q, &mut inv, &mut attacks, Some(GroundItem { entity: 5, position: Vec2::zero(), item: crate_item }));
    assert_eq!(out, vec![ItemCommand::Hold { entity: 5, lift: 30 }]);
    assert_eq!(q.len(), 1);
    assert_eq!(q.queue[0].state, FighterState::Holding(Holding));
    assert_eq!(q.queue[0].priority, 35);
    q.transition_to_higher_priority_states(&mut states, 0);
    assert!(states.holding);
    assert_eq!(states.current, FighterState::Idling(Idling));
}

#[test]
fn grabbing_weapon_adds_attack() {
    let mut states = FighterStates::new();
    let mut q = StateTransitionIntents::new();
    let mut inv: Option<ItemMeta> = None;
    let mut attacks: Vec<AttackMeta> = vec![attack(AttackName::Punch)];
    let sword = ItemMeta { id: 6, kind: ItemKind::MeleeWeapon { attack: attack(AttackName::Melee), swing_sound: true }, image_height: 12 };
    let out = grab_item(&mut states, &mut q, &mut inv, &mut attacks, Some(GroundItem { entity: 11, position: Vec2::zero(), item: sword }));
    assert_eq!(out, vec![
        ItemCommand::PickUp { entity: 11 },
        ItemCommand::EquipMelee { entity: 11, weapon: MeleeWeapon { attack: attack(AttackName::Melee), swing_sound: true } },
    ]);
    assert_eq!(attacks.len(), 2);
    assert_eq!(attacks[1].name, AttackName::Melee);

    let out = throw_item(&mut states, &mut inv, &mut attacks, Facing::Right, 100, 100);
    assert_eq!(out, vec![ItemCommand::DropOnGround { item: 6 }, ItemCommand::DespawnWeapon]);
    assert_eq!(attacks.len(), 1);
    assert_eq!(inv, None);
}

#[test]
fn grabbing_gun_equips_it_ready() {
    let mut states = FighterStates::new();
    let mut q = StateTransitionIntents::new();
    let mut inv: Option<ItemMeta> = None;
    let mut attacks: Vec<AttackMeta> = vec![];
    let gun = GunMeta { bullet_velocity: 5000, bullet_lifetime_ms: 400, ammo: 6, shoot_delay_ms: 250 };
    let item = ItemMeta { id: 7, kind: ItemKind::ProjectileWeapon { attack: attack(AttackName::Projectile), gun, shot_sound: false }, image_height: 12 };
    let out = grab_item(&mut states, &mut q, &mut inv, &mut attacks, Some(GroundItem { entity: 12, position: Vec2::zero(), item }));
    assert_eq!(out.len(), 2);
    match out[1] {
        ItemCommand::EquipGun { entity, weapon } => {
            assert_eq!(entity, 12);
            assert_eq!(weapon.ammo, 6);
            assert!(weapon.shoot_delay.finished());
        }
        _ => panic!("expected a gun"),
    }
}

#[test]
fn grabbing_script_item_leaves_hands_empty() {
    let mut states = FighterStates::new();
    let mut q = StateTransitionIntents::new();
    let mut inv: Option<ItemMeta> = None;
    let mut attacks: Vec<AttackMeta> = vec![];
    let item = ItemMeta { id: 3, kind: ItemKind::Script { script: 99 }, image_height: 1 };
    let out = grab_item(&mut states, &mut q, &mut inv, &mut attacks, Some(GroundItem { entity: 13, position: Vec2::zero(), item }));
    assert_eq!(out, vec![ItemCommand::ScriptGrab { script: 99, entity: 13 }]);
    assert_eq!(inv, None);
}

#[test]
fn throwing_box_ends_holding() {
    let mut states = FighterStates::new();
    states.holding = true;
    states.throwing = true;
    let mut inv = Some(ItemMeta { id: 4, kind: ItemKind::BreakableBox { contents: 8 }, image_height: 30 });
    let mut attacks: Vec<AttackMeta> = vec![];
    let out = throw_item(&mut states, &mut inv, &mut attacks, Facing::Left, 90, 90);
    assert_eq!(out, vec![ItemCommand::ThrowBox { item: 4, contents: 8 }, ItemCommand::DespawnHeld]);
    assert!(!states.holding);
    assert!(!states.throwing);
    assert_eq!(inv, None);
}

#[test]
fn thrown_bomb_is_jittered_exactly() {
    let mut states = FighterStates::new();
    states.holding = true;
    let mut inv = Some(bomb());
    let mut attacks: Vec<AttackMeta> = vec![];
    let out = throw_item(&mut states, &mut inv, &mut attacks, Facing::Left, 80, 119);
    assert_eq!(
        out,
        vec![ItemCommand::LaunchBomb { velocity: Vec2::new(-800, 400), gravity: 980, spin_percent: -119 }]
    );
    assert!(!states.holding);
}

#[test]
fn thrown_bomb_random_jitter_in_range() {
    for _ in 0..50 {
        let mut states = FighterStates::new();
        let mut inv = Some(bomb());
        let mut attacks: Vec<AttackMeta> = vec![];
        let out = throwing(&mut states, &mut inv, &mut attacks, Facing::Right);
        match out[0] {
            ItemCommand::LaunchBomb { velocity, gravity, spin_percent } => {
                assert!(velocity.x >= 800 && velocity.x < 1200);
                assert_eq!(velocity.y * 2, velocity.x);
                assert_eq!(gravity, 980);
                assert!(spin_percent >= 80 && spin_percent < 120);
            }
            _ => panic!("expected a launch"),
        }
    }
}

#[test]
fn throwing_with_empty_hands_does_nothing() {
    let mut states = FighterStates::new();
    states.throwing = true;
    let mut inv: Option<ItemMeta> = None;
    let mut attacks: Vec<AttackMeta> = vec![];
    let out = throwing(&mut states, &mut inv, &mut attacks, Facing::Right);
    assert!(out.is_empty());
    assert!(!states.throwing);
}

#[test]
fn fighter_tick_dies_and_despawns() {
    let mut f = Fighter::new(2, Role::Enemy, Vec2::new(0, 0), 0, 1000, vec![attack(AttackName::Punch)]);
    let events = vec![DamageEvent { damaged_entity: 2, damage_velocity: Vec2::new(4, 0), hitstun_duration_ms: 100 }];
    f.collect(None, &events);
    assert_eq!(f.intents.len(), 2);
    f.transition();
    assert_eq!(f.states.current, FighterState::Dying(fighter_state::state::Dying));
    let out = f.handle(None, None, 16).unwrap();
    assert!(out.is_empty());
    f.animation.finished = true;
    let out = f.handle(None, None, 16).unwrap();
    assert_eq!(out, vec![Command::Despawn]);
}

#[test]
fn fighter_throw_and_grab() {
    let mut f = Fighter::new(3, Role::Player, Vec2::new(0, 0), 10, 1000, vec![]);
    f.states.grabbing = true;
    f.grab(Some(GroundItem { entity: 20, position: Vec2::zero(), item: rock(8) }));
    assert_eq!(f.inventory, Some(rock(8)));
    assert!(!f.states.grabbing);
    f.states.throwing = true;
    let out = f.throw();
    assert_eq!(out, vec![ItemCommand::ThrowItem { item: 8 }]);
    assert_eq!(f.inventory, None);
    let _ = AnimationTrack::new();
}

#[test]
fn attack_state_without_attacks_waits() {
    let mut f = Fighter::new(4, Role::Player, Vec2::new(0, 0), 10, 1000, vec![]);
    f.states.current = FighterState::Punching(Punching { has_started: false, is_finished: false });
    let meta = FighterMeta { collision_offset: 0, effect_clips: vec![] };
    assert_eq!(f.handle(Some(&meta), None, 16), Err(fighter_state::handlers::Skip::MetadataNotReady));
    assert_eq!(f.states.current, FighterState::Punching(Punching { has_started: false, is_finished: false }));
}

#[test]
fn combo_through_the_pipeline_ends_in_flop() {
    let mut f = Fighter::new(5, Role::Player, Vec2::new(0, 0), 10, 1000, vec![attack(AttackName::Chain)]);
    let meta = FighterMeta { collision_offset: 0, effect_clips: vec![] };
    let press = PlayerInput { attack_just_pressed: true, ..no_input() };
    let mut tick = |f: &mut Fighter, input: PlayerInput, frame: Option<u32>| {
        f.collect(Some(input), &vec![]);
        f.transition();
        if let Some(fr) = frame {
            f.animation.current_frame = fr;
        }
        f.handle(Some(&meta), None, 16).unwrap();
    };
    tick(&mut f, press, None);
    assert!(matches!(f.states.current, FighterState::Chaining(_)));
    tick(&mut f, no_input(), Some(5));
    tick(&mut f, press, None);
    tick(&mut f, no_input(), Some(5));
    tick(&mut f, press, None);
    match f.states.current {
        FighterState::Chaining(c) => {
            assert_eq!(c.link, 2);
            assert!(c.transition_to_final);
        }
        _ => panic!("expected a combo"),
    }
    f.collect(Some(no_input()), &vec![]);
    assert!(f.transition());
    assert!(matches!(f.states.current, FighterState::Flopping(_)));
}
