//! The instant states that move items: grabbing one off the ground, and throwing (or
//! dropping) what the fighter carries.
use rand::Rng;
use vstd::prelude::*;

use crate::collect::{div_toward_zero, intent_to};
use crate::geometry::{mirrored, Facing, Vec2};
use crate::handlers::{coord_ok, vec_ok, COORD_LIMIT};
use crate::intents::{StateTransition, StateTransitionIntents};
use crate::meta::{AttackMeta, ItemKind, ItemMeta};
use crate::state::{FighterState, FighterStates, Holding};
use crate::weapons::{MeleeWeapon, ProjectileWeapon};

verus! {

/// A side effect of grabbing or throwing that the entity layer performs.
#[derive(Clone, Copy, Debug, PartialEq, Eq, Structural)]
pub enum ItemCommand {
    /// Throw the item as a projectile from the fighter.
    ThrowItem { item: u64 },
    /// Tell the scripting host that the fighter threw a scripted item.
    ScriptThrow { script: u64 },
    /// Throw a breakable box, which drops the item `contents` when broken.
    ThrowBox { item: u64, contents: u64 },
    /// Remove the item the fighter held over its head.
    DespawnHeld,
    /// Put the item back on the ground under the fighter.
    DropOnGround { item: u64 },
    /// Remove the weapon the fighter had equipped.
    DespawnWeapon,
    /// Release the held bomb: its velocity, its pull downward, and its spin as a signed
    /// percentage of the standard throw spin.
    LaunchBomb { velocity: Vec2, gravity: i64, spin_percent: i64 },
    /// Tell the scripting host that the fighter grabbed a scripted item, and remove the item.
    ScriptGrab { script: u64, entity: u64 },
    /// Remove the ground item the fighter took into its inventory.
    PickUp { entity: u64 },
    /// Lift the ground item over the fighter's head, `lift` above the throw offset.
    Hold { entity: u64, lift: i64 },
    /// Give the fighter a melee weapon.
    EquipMelee { entity: u64, weapon: MeleeWeapon },
    /// Give the fighter a projectile weapon.
    EquipGun { entity: u64, weapon: ProjectileWeapon },
}

/// The least jitter of a bomb throw, in percent.
pub const JITTER_MIN: u32 = 80;
/// One past the greatest jitter of a bomb throw, in percent.
pub const JITTER_END: u32 = 120;

/// Relies on rand's `Rng::gen_range` over the non-empty range `JITTER_MIN..JITTER_END` of
/// `thread_rng`: a value inside the range, which it documents as half-open.
#[verifier::external_body]
fn jitter_percent() -> (r: u32)
    ensures
        JITTER_MIN <= r < JITTER_END,
{
    rand::thread_rng().gen_range(JITTER_MIN..JITTER_END)
}

/// The item's numbers stay within the coordinate bound.
pub open spec fn item_ok(item: ItemMeta) -> bool {
    &&& coord_ok(item.image_height)
    &&& match item.kind {
        ItemKind::Bomb { bomb } => vec_ok(bomb.throw_velocity) && coord_ok(bomb.gravity),
        ItemKind::ProjectileWeapon { gun, .. } => coord_ok(gun.bullet_velocity),
        _ => true,
    }
}

/// The kinds of item that a fighter holds over its head.
pub open spec fn is_held_kind(kind: ItemKind) -> bool {
    kind is BreakableBox || kind is Bomb
}

pub open spec fn is_weapon_kind(kind: ItemKind) -> bool {
    kind is MeleeWeapon || kind is ProjectileWeapon
}

/// The launch velocity of a held bomb: its throw velocity turned to the facing and scaled
/// by the jitter percentage.
pub open spec fn bomb_velocity(v: Vec2, facing: Facing, jitter: u32) -> Vec2 {
    Vec2 {
        x: div_toward_zero(mirrored(v.x as int, facing) * jitter, 100) as i64,
        y: div_toward_zero(v.y * jitter, 100) as i64,
    }
}

/// What throwing `item` asks of the entity layer.
pub open spec fn throw_commands(
    item: ItemMeta,
    facing: Facing,
    velocity_jitter: u32,
    spin_jitter: u32,
) -> Seq<ItemCommand> {
    match item.kind {
        ItemKind::Throwable { .. } => seq![ItemCommand::ThrowItem { item: item.id }],
        ItemKind::Script { script } => seq![ItemCommand::ScriptThrow { script }],
        ItemKind::BreakableBox { contents } => seq![
            ItemCommand::ThrowBox { item: item.id, contents },
            ItemCommand::DespawnHeld,
        ],
        ItemKind::MeleeWeapon { .. } => seq![
            ItemCommand::DropOnGround { item: item.id },
            ItemCommand::DespawnWeapon,
        ],
        ItemKind::ProjectileWeapon { .. } => seq![
            ItemCommand::DropOnGround { item: item.id },
            ItemCommand::DespawnWeapon,
        ],
        ItemKind::Bomb { bomb } => seq![
            ItemCommand::LaunchBomb {
                velocity: bomb_velocity(bomb.throw_velocity, facing, velocity_jitter),
                gravity: bomb.gravity,
                spin_percent: mirrored(spin_jitter as int, facing) as i64,
            },
        ],
    }
}

/// What throwing from an inventory asks: nothing when it is empty.
pub open spec fn thrown(
    inventory: Option<ItemMeta>,
    facing: Facing,
    velocity_jitter: u32,
    spin_jitter: u32,
) -> Seq<ItemCommand> {
    match inventory {
        Some(item) => throw_commands(item, facing, velocity_jitter, spin_jitter),
        None => Seq::empty(),
    }
}

fn scale_percent(x: i64, pct: u32) -> (r: i64)
    requires
        coord_ok(x),
        pct < JITTER_END,
    ensures
        r == div_toward_zero(x * pct, 100),
{
    let mag: u64 = if x >= 0 { x as u64 } else { (-x) as u64 };
    assert(mag * pct <= COORD_LIMIT * 120) by (nonlinear_arith)
        requires
            mag <= COORD_LIMIT,
            pct < 120,
    ;
    let q: u64 = (mag * pct as u64) / 100;
    proof {
        if x < 0 {
            assert(x * pct == -(mag * pct)) by (nonlinear_arith)
                requires
                    mag == -x,
            ;
        } else {
            assert(x * pct == mag * pct);
        }
    }
    if x >= 0 {
        q as i64
    } else {
        -(q as i64)
    }
}

/// Throws what the fighter carries, with the given jitters (in percent) on a bomb's speed
/// and spin. The inventory empties; a weapon leaves the attack list; a thrown box or bomb
/// ends the holding; and the throw itself, an instant state, ends with the tick.
pub fn throw_item(
    states: &mut FighterStates,
    inventory: &mut Option<ItemMeta>,
    attacks: &mut Vec<AttackMeta>,
    facing: Facing,
    velocity_jitter: u32,
    spin_jitter: u32,
) -> (r: Vec<ItemCommand>)
    requires
        old(states).wf(),
        (*old(inventory)) matches Some(item) ==> item_ok(item),
        velocity_jitter < JITTER_END,
        spin_jitter < JITTER_END,
    ensures
        final(states).wf(),
        *final(inventory) == None::<ItemMeta>,
        r@ == thrown(*old(inventory), facing, velocity_jitter, spin_jitter),
        *final(states) == (FighterStates {
            throwing: false,
            holding: match *old(inventory) {
                Some(item) => old(states).holding && !is_held_kind(item.kind),
                None => old(states).holding,
            },
            ..*old(states)
        }),
        final(attacks)@ == match *old(inventory) {
            Some(item) => if is_weapon_kind(item.kind) && old(attacks)@.len() > 0 {
                old(attacks)@.drop_last()
            } else {
                old(attacks)@
            },
            None => old(attacks)@,
        },
{
    let mut out: Vec<ItemCommand> = Vec::new();
    let taken = *inventory;
    *inventory = None;
    if let Some(item) = taken {
        match item.kind {
            ItemKind::Throwable { .. } => {
                out.push(ItemCommand::ThrowItem { item: item.id });
            },
            ItemKind::Script { script } => {
                out.push(ItemCommand::ScriptThrow { script });
            },
            ItemKind::BreakableBox { contents } => {
                out.push(ItemCommand::ThrowBox { item: item.id, contents });
                out.push(ItemCommand::DespawnHeld);
                states.holding = false;
            },
            ItemKind::MeleeWeapon { .. } | ItemKind::ProjectileWeapon { .. } => {
                out.push(ItemCommand::DropOnGround { item: item.id });
                attacks.pop();
                out.push(ItemCommand::DespawnWeapon);
            },
            ItemKind::Bomb { bomb } => {
                let left = facing.is_left();
                let vx = if left { -bomb.throw_velocity.x } else { bomb.throw_velocity.x };
                let velocity = Vec2 {
                    x: scale_percent(vx, velocity_jitter),
                    y: scale_percent(bomb.throw_velocity.y, velocity_jitter),
                };
                let spin: i64 = if left { -(spin_jitter as i64) } else { spin_jitter as i64 };
                out.push(ItemCommand::LaunchBomb { velocity, gravity: bomb.gravity, spin_percent: spin });
                states.holding = false;
            },
        }
    }
    states.throwing = false;
    out
}

/// Throwing, the instant state: throws what the fighter carries, with a bomb's speed and spin
/// jittered by a random 80 to 119 percent, as `throw_item` describes for the jitters drawn.
pub fn throwing(
    states: &mut FighterStates,
    inventory: &mut Option<ItemMeta>,
    attacks: &mut Vec<AttackMeta>,
    facing: Facing,
) -> (r: Vec<ItemCommand>)
    requires
        old(states).wf(),
        (*old(inventory)) matches Some(item) ==> item_ok(item),
    ensures
        final(states).wf(),
        *final(inventory) == None::<ItemMeta>,
        exists|vj: u32, sj: u32|
            JITTER_MIN <= vj < JITTER_END && JITTER_MIN <= sj < JITTER_END && r@ == #[trigger] thrown(
                *old(inventory),
                facing,
                vj,
                sj,
            ),
        *final(states) == (FighterStates {
            throwing: false,
            holding: match *old(inventory) {
                Some(item) => old(states).holding && !is_held_kind(item.kind),
                None => old(states).holding,
            },
            ..*old(states)
        }),
        final(attacks)@ == match *old(inventory) {
            Some(item) => if is_weapon_kind(item.kind) && old(attacks)@.len() > 0 {
                old(attacks)@.drop_last()
            } else {
                old(attacks)@
            },
            None => old(attacks)@,
        },
{
    let vj = jitter_percent();
    let sj = jitter_percent();
    throw_item(states, inventory, attacks, facing, vj, sj)
}

/// An item lying on the ground.
#[derive(Clone, Copy, Debug, PartialEq, Eq, Structural)]
pub struct GroundItem {
    pub entity: u64,
    pub position: Vec2,
    pub item: ItemMeta,
}

/// A fighter in the grabbing state, as the pickup pass sees it.
#[derive(Clone, Copy, Debug, PartialEq, Eq, Structural)]
pub struct Grabber {
    pub position: Vec2,
    pub has_item: bool,
}

/// The item lies within `radius` of the fighter.
pub open spec fn in_reach(a: Vec2, b: Vec2, radius: int) -> bool {
    let dx = a.x - b.x;
    let dy = a.y - b.y;
    dx * dx + dy * dy <= radius * radius
}

/// The first item from index `j` on that lies within reach and that no earlier pick took.
pub open spec fn first_free_from(
    g: Grabber,
    items: Seq<GroundItem>,
    radius: int,
    picks: Seq<Option<int>>,
    j: int,
) -> Option<int>
    decreases items.len() - j,
{
    if j < 0 || j >= items.len() {
        None
    } else if in_reach(g.position, items[j].position, radius) && !picks.contains(Some(j)) {
        Some(j)
    } else {
        first_free_from(g, items, radius, picks, j + 1)
    }
}

/// What one grabber takes: the first free item within reach, and nothing if its hands are
/// already full.
pub open spec fn pick_for(
    g: Grabber,
    items: Seq<GroundItem>,
    radius: int,
    picks: Seq<Option<int>>,
) -> Option<int> {
    if g.has_item {
        None
    } else {
        first_free_from(g, items, radius, picks, 0)
    }
}

/// The picks of the first `n` grabbers, in order: each sees the items the ones before it took.
pub open spec fn picks_upto(
    grabbers: Seq<Grabber>,
    items: Seq<GroundItem>,
    radius: int,
    n: nat,
) -> Seq<Option<int>>
    decreases n,
{
    if n == 0 {
        Seq::empty()
    } else {
        let prev = picks_upto(grabbers, items, radius, (n - 1) as nat);
        prev.push(pick_for(grabbers[n - 1], items, radius, prev))
    }
}

fn within_reach(a: Vec2, b: Vec2, radius: i64) -> (r: bool)
    requires
        vec_ok(a),
        vec_ok(b),
        0 <= radius <= COORD_LIMIT,
    ensures
        r == in_reach(a, b, radius as int),
{
    let dx: i128 = a.x as i128 - b.x as i128;
    let dy: i128 = a.y as i128 - b.y as i128;
    assert(0 <= dx * dx <= 0x10_0000_0000_0000_0000_0000) by (nonlinear_arith)
        requires
            -0x200_0000_0000 <= dx <= 0x200_0000_0000,
    ;
    assert(0 <= dy * dy <= 0x10_0000_0000_0000_0000_0000) by (nonlinear_arith)
        requires
            -0x200_0000_0000 <= dy <= 0x200_0000_0000,
    ;
    assert(0 <= radius * radius <= 0x10_0000_0000_0000_0000_0000) by (nonlinear_arith)
        requires
            0 <= radius <= 0x200_0000_0000,
    ;
    dx * dx + dy * dy <= radius as i128 * radius as i128
}

/// Whether some pick so far took item `j`.
fn taken(picks: &Vec<Option<usize>>, j: usize) -> (r: bool)
    ensures
        r == picks@.map_values(|p: Option<usize>| opt_int(p)).contains(Some(j as int)),
{
    let ghost view = picks@.map_values(|p: Option<usize>| opt_int(p));
    let mut i: usize = 0;
    while i < picks.len()
        invariant
            i <= picks@.len(),
            view == picks@.map_values(|p: Option<usize>| opt_int(p)),
            forall|k: int| 0 <= k < i ==> view[k] != Some(j as int),
        decreases picks@.len() - i,
    {
        if picks[i] == Some(j) {
            assert(view[i as int] == Some(j as int));
            return true;
        }
        i = i + 1;
    }
    false
}

/// An index pick seen as a mathematical one.
pub open spec fn opt_int(p: Option<usize>) -> Option<int> {
    match p {
        Some(j) => Some(j as int),
        None => None,
    }
}

/// The pickup pass of one tick: for each grabbing fighter in order, the index of the ground
/// item it takes, if any. A fighter takes the first item within `radius` that no fighter
/// before it took this pass, and only if its hands are empty.
pub fn pick_items(grabbers: &Vec<Grabber>, items: &Vec<GroundItem>, radius: i64) -> (r: Vec<
    Option<usize>,
>)
    requires
        0 <= radius <= COORD_LIMIT,
        forall|i: int| 0 <= i < grabbers@.len() ==> vec_ok(#[trigger] grabbers@[i].position),
        forall|j: int| 0 <= j < items@.len() ==> vec_ok(#[trigger] items@[j].position),
    ensures
        r@.map_values(|p: Option<usize>| opt_int(p)) == picks_upto(
            grabbers@,
            items@,
            radius as int,
            grabbers@.len(),
        ),
{
    let mut picks: Vec<Option<usize>> = Vec::new();
    let mut i: usize = 0;
    while i < grabbers.len()
        invariant
            i <= grabbers@.len(),
            0 <= radius <= COORD_LIMIT,
            forall|k: int| 0 <= k < grabbers@.len() ==> vec_ok(#[trigger] grabbers@[k].position),
            forall|j: int| 0 <= j < items@.len() ==> vec_ok(#[trigger] items@[j].position),
            picks@.map_values(|p: Option<usize>| opt_int(p)) == picks_upto(
                grabbers@,
                items@,
                radius as int,
                i as nat,
            ),
        decreases grabbers@.len() - i,
    {
        let g = grabbers[i];
        let ghost prev = picks@.map_values(|p: Option<usize>| opt_int(p));
        let mut pick: Option<usize> = None;
        if !g.has_item {
            let mut j: usize = 0;
            while j < items.len()
                invariant_except_break
                    pick is None,
                invariant
                    j <= items@.len(),
                    0 <= radius <= COORD_LIMIT,
                    vec_ok(g.position),
                    forall|k: int| 0 <= k < items@.len() ==> vec_ok(#[trigger] items@[k].position),
                    prev == picks@.map_values(|p: Option<usize>| opt_int(p)),
                    first_free_from(g, items@, radius as int, prev, 0) == first_free_from(
                        g,
                        items@,
                        radius as int,
                        prev,
                        j as int,
                    ),
                ensures
                    opt_int(pick) == first_free_from(g, items@, radius as int, prev, 0),
                decreases items@.len() - j,
            {
                if within_reach(g.position, items[j].position, radius) && !taken(&picks, j) {
                    pick = Some(j);
                    break;
                }
                j = j + 1;
            }
            assert(opt_int(pick) == first_free_from(g, items@, radius as int, prev, 0));
        }
        picks.push(pick);
        proof {
            assert(picks@.map_values(|p: Option<usize>| opt_int(p)) == prev.push(opt_int(pick)));
        }
        i = i + 1;
    }
    picks
}

/// What taking ground item `g` into empty hands asks of the entity layer.
pub open spec fn grab_commands(g: GroundItem) -> Seq<ItemCommand> {
    match g.item.kind {
        ItemKind::Script { script } => seq![ItemCommand::ScriptGrab { script, entity: g.entity }],
        ItemKind::Throwable { .. } => seq![ItemCommand::PickUp { entity: g.entity }],
        ItemKind::BreakableBox { .. } => seq![ItemCommand::Hold { entity: g.entity, lift: g.item.image_height }],
        ItemKind::Bomb { .. } => seq![ItemCommand::Hold { entity: g.entity, lift: g.item.image_height }],
        ItemKind::MeleeWeapon { attack, swing_sound } => seq![
            ItemCommand::PickUp { entity: g.entity },
            ItemCommand::EquipMelee { entity: g.entity, weapon: MeleeWeapon { attack, swing_sound } },
        ],
        ItemKind::ProjectileWeapon { attack, gun, shot_sound } => seq![
            ItemCommand::PickUp { entity: g.entity },
            ItemCommand::EquipGun {
                entity: g.entity,
                weapon: ProjectileWeapon {
                    attack,
                    shot_sound,
                    ammo: gun.ammo,
                    bullet_velocity: gun.bullet_velocity,
                    bullet_lifetime_ms: gun.bullet_lifetime_ms,
                    shoot_delay: crate::state::Timer {
                        duration_ms: gun.shoot_delay_ms,
                        elapsed_ms: gun.shoot_delay_ms,
                    },
                },
            },
        ],
    }
}

/// The attack a weapon item brings, if it is one.
pub open spec fn weapon_attack(kind: ItemKind) -> Option<AttackMeta> {
    match kind {
        ItemKind::MeleeWeapon { attack, .. } => Some(attack),
        ItemKind::ProjectileWeapon { attack, .. } => Some(attack),
        _ => None,
    }
}

/// Grabbing, the instant state, for one fighter: takes the ground item that the pickup pass
/// gave it, if its hands are empty. A scripted item goes to the scripting host; any other
/// fills the inventory; a box or a bomb is lifted (holding is queued); a weapon adds its
/// attack. The grab itself ends with the tick.
pub fn grab_item(
    states: &mut FighterStates,
    intents: &mut StateTransitionIntents,
    inventory: &mut Option<ItemMeta>,
    attacks: &mut Vec<AttackMeta>,
    picked: Option<GroundItem>,
) -> (r: Vec<ItemCommand>)
    requires
        old(states).wf(),
        old(intents).wf(),
    ensures
        final(states).wf(),
        final(intents).wf(),
        *final(states) == (FighterStates { grabbing: false, ..*old(states) }),
        ((*old(inventory)) is Some || picked is None) ==> {
            &&& r@ == Seq::<ItemCommand>::empty()
            &&& *final(inventory) == *old(inventory)
            &&& final(intents)@ == old(intents)@
            &&& final(attacks)@ == old(attacks)@
        },
        (*old(inventory)) is None && picked is Some ==> {
            let g = picked->0;
            &&& r@ == grab_commands(g)
            &&& *final(inventory) == if g.item.kind is Script { None } else { Some(g.item) }
            &&& final(intents)@ == if is_held_kind(g.item.kind) {
                old(intents)@.push(intent_to(FighterState::Holding(Holding)))
            } else {
                old(intents)@
            }
            &&& final(attacks)@ == match weapon_attack(g.item.kind) {
                Some(a) => old(attacks)@.push(a),
                None => old(attacks)@,
            }
        },
{
    let mut out: Vec<ItemCommand> = Vec::new();
    states.grabbing = false;
    if inventory.is_some() {
        return out;
    }
    let g = match picked {
        Some(g) => g,
        None => {
            return out;
        },
    };
    match g.item.kind {
        ItemKind::Script { script } => {
            out.push(ItemCommand::ScriptGrab { script, entity: g.entity });
        },
        ItemKind::Throwable { .. } => {
            *inventory = Some(g.item);
            out.push(ItemCommand::PickUp { entity: g.entity });
        },
        ItemKind::BreakableBox { .. } | ItemKind::Bomb { .. } => {
            intents.push_back(StateTransition::to_state(FighterState::Holding(Holding)));
            *inventory = Some(g.item);
            out.push(ItemCommand::Hold { entity: g.entity, lift: g.item.image_height });
        },
        ItemKind::MeleeWeapon { attack, swing_sound } => {
            *inventory = Some(g.item);
            out.push(ItemCommand::PickUp { entity: g.entity });
            attacks.push(attack);
            out.push(ItemCommand::EquipMelee { entity: g.entity, weapon: MeleeWeapon { attack, swing_sound } });
        },
        ItemKind::ProjectileWeapon { attack, gun, shot_sound } => {
            *inventory = Some(g.item);
            out.push(ItemCommand::PickUp { entity: g.entity });
            attacks.push(attack);
            let weapon = ProjectileWeapon::equip(attack, gun, shot_sound);
            out.push(ItemCommand::EquipGun { entity: g.entity, weapon });
        },
    }
    out
}

/// A free item found from `j` on is in range, within reach, and not taken before.
proof fn lemma_first_free(
    g: Grabber,
    items: Seq<GroundItem>,
    radius: int,
    picks: Seq<Option<int>>,
    j: int,
)
    requires
        0 <= j,
    ensures
        first_free_from(g, items, radius, picks, j) matches Some(k) ==> {
            &&& j <= k < items.len()
            &&& in_reach(g.position, items[k].position, radius)
            &&& !picks.contains(Some(k))
        },
    decreases items.len() - j,
{
    if j < items.len() {
        lemma_first_free(g, items, radius, picks, j + 1);
    }
}

/// In one pickup pass no ground item is taken twice: every pick is an item within the
/// fighter's reach, taken by no other fighter, and a fighter with full hands takes nothing.
pub proof fn lemma_grab_dedup(
    grabbers: Seq<Grabber>,
    items: Seq<GroundItem>,
    radius: int,
    n: nat,
)
    requires
        n <= grabbers.len(),
    ensures
        picks_upto(grabbers, items, radius, n).len() == n,
        forall|i: int|
            0 <= i < n && (#[trigger] picks_upto(grabbers, items, radius, n)[i]) is Some ==> {
                let k = picks_upto(grabbers, items, radius, n)[i]->0;
                &&& 0 <= k < items.len()
                &&& in_reach(grabbers[i].position, items[k].position, radius)
                &&& !grabbers[i].has_item
            },
        forall|i: int, l: int|
            0 <= i < n && 0 <= l < n && i != l && (#[trigger] picks_upto(
                grabbers,
                items,
                radius,
                n,
            )[i]) is Some ==> picks_upto(grabbers, items, radius, n)[i] != #[trigger] picks_upto(
                grabbers,
                items,
                radius,
                n,
            )[l],
    decreases n,
{
    if n > 0 {
        let m = (n - 1) as nat;
        lemma_grab_dedup(grabbers, items, radius, m);
        let prev = picks_upto(grabbers, items, radius, m);
        let cur = picks_upto(grabbers, items, radius, n);
        let g = grabbers[m as int];
        lemma_first_free(g, items, radius, prev, 0);
        assert(cur == prev.push(pick_for(g, items, radius, prev)));
        assert forall|i: int| 0 <= i < m implies #[trigger] cur[i] == prev[i] by {}
        assert forall|i: int, l: int|
            0 <= i < n && 0 <= l < n && i != l && (#[trigger] cur[i]) is Some implies cur[i]
                != #[trigger] cur[l] by {
            if i == m && l < m {
                assert(prev[l] == cur[l]);
                if cur[i] == cur[l] {
                    assert(prev.contains(cur[i]));
                }
            } else if l == m && i < m {
                if cur[i] == cur[l] {
                    assert(prev.contains(cur[l]));
                }
            }
        }
    }
}

/// A lone item within reach of some empty-handed grabber is taken in the pass: exactly one
/// grabber ends up with it.
pub proof fn lemma_lone_item_taken_once(
    grabbers: Seq<Grabber>,
    items: Seq<GroundItem>,
    radius: int,
    k: int,
)
    requires
        items.len() == 1,
        0 <= k < grabbers.len(),
        !grabbers[k].has_item,
        in_reach(grabbers[k].position, items[0].position, radius),
    ensures
        exists|i: int|
            0 <= i < grabbers.len() && #[trigger] picks_upto(
                grabbers,
                items,
                radius,
                grabbers.len(),
            )[i] == Some(0int) && forall|l: int|
                0 <= l < grabbers.len() && l != i ==> #[trigger] picks_upto(
                    grabbers,
                    items,
                    radius,
                    grabbers.len(),
                )[l] is None,
{
    let n = grabbers.len();
    lemma_grab_dedup(grabbers, items, radius, n);
    lemma_lone_item_reached(grabbers, items, radius, k, n);
    let picks = picks_upto(grabbers, items, radius, n);
    let i = choose|i: int| 0 <= i < picks.len() && picks[i] == Some(0int);
    assert forall|l: int| 0 <= l < n && l != i implies #[trigger] picks[l] is None by {
        if picks[l] is Some {
            assert(picks[l]->0 < items.len());
            assert(picks[l] == picks[i]);
        }
    }
}

proof fn lemma_lone_item_reached(
    grabbers: Seq<Grabber>,
    items: Seq<GroundItem>,
    radius: int,
    k: int,
    n: nat,
)
    requires
        items.len() == 1,
        0 <= k < n <= grabbers.len(),
        !grabbers[k].has_item,
        in_reach(grabbers[k].position, items[0].position, radius),
    ensures
        picks_upto(grabbers, items, radius, n).contains(Some(0int)),
    decreases n,
{
    let m = (n - 1) as nat;
    let prev = picks_upto(grabbers, items, radius, m);
    let cur = picks_upto(grabbers, items, radius, n);
    lemma_grab_dedup(grabbers, items, radius, m);
    if k < m {
        lemma_lone_item_reached(grabbers, items, radius, k, m);
        let i = choose|i: int| 0 <= i < prev.len() && prev[i] == Some(0int);
        assert(cur[i] == prev[i]);
    } else if prev.contains(Some(0int)) {
        let i = choose|i: int| 0 <= i < prev.len() && prev[i] == Some(0int);
        assert(cur[i] == prev[i]);
    } else {
        assert(cur[m as int] == Some(0int));
    }
}

} // verus!
