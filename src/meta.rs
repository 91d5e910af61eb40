//! Read-only metadata that the states consume: attacks, fighters, items.
use vstd::prelude::*;

use crate::geometry::Vec2;
use crate::state::Clip;

verus! {

/// The tag that picks which attack state an attack enters.
#[derive(Clone, Copy, Debug, PartialEq, Eq, Structural)]
pub enum AttackName {
    Chain,
    Punch,
    Flop,
    Melee,
    Projectile,
    /// An attack that the input does not trigger (a boss's, an enemy's).
    Other,
}

/// Frame boundaries of an attack animation: wind-up before `startup`, the hit until
/// `active`, recovery until `recovery`.
#[derive(Clone, Copy, Debug, PartialEq, Eq, Structural)]
pub struct AttackFrames {
    pub startup: u32,
    pub active: u32,
    pub recovery: u32,
}

/// An attack a fighter can perform.
#[derive(Clone, Copy, Debug, PartialEq, Eq, Structural)]
pub struct AttackMeta {
    pub name: AttackName,
    pub damage: i32,
    pub hitbox_offset: Vec2,
    pub hitbox_size: Vec2,
    /// Knockback speed given to the target, if any.
    pub velocity: Option<Vec2>,
    pub hitstun_duration_ms: u64,
    pub frames: AttackFrames,
}

/// What a fighter's metadata tells the states.
#[derive(Debug)]
pub struct FighterMeta {
    /// Height of the fighter's collision box above its origin.
    pub collision_offset: i64,
    /// The clips for which the fighter has sound effects.
    pub effect_clips: Vec<Clip>,
}

impl FighterMeta {
    pub fn has_effects(&self, clip: Clip) -> (r: bool)
        ensures
            r == self.effect_clips@.contains(clip),
    {
        let mut i: usize = 0;
        while i < self.effect_clips.len()
            invariant
                i <= self.effect_clips@.len(),
                forall|j: int| 0 <= j < i ==> self.effect_clips@[j] != clip,
            decreases self.effect_clips@.len() - i,
        {
            if self.effect_clips[i] == clip {
                return true;
            }
            i = i + 1;
        }
        false
    }
}

/// What a bomb item carries.
#[derive(Clone, Copy, Debug, PartialEq, Eq, Structural)]
pub struct BombMeta {
    pub throw_velocity: Vec2,
    pub gravity: i64,
    pub lifetime_ms: u64,
}

/// What a projectile weapon carries.
#[derive(Clone, Copy, Debug, PartialEq, Eq, Structural)]
pub struct GunMeta {
    pub bullet_velocity: i64,
    pub bullet_lifetime_ms: u64,
    pub ammo: u32,
    pub shoot_delay_ms: u64,
}

/// The kind of an item, with what that kind needs.
#[derive(Clone, Copy, Debug, PartialEq, Eq, Structural)]
pub enum ItemKind {
    Throwable { damage: i32 },
    /// A scripted item, known to the scripting host by its script id.
    Script { script: u64 },
    /// A box that drops the item `contents` when broken.
    BreakableBox { contents: u64 },
    /// A melee weapon; `swing_sound` tells whether it has sound effects for its swing.
    MeleeWeapon { attack: AttackMeta, swing_sound: bool },
    /// A projectile weapon; `shot_sound` tells whether it has sound effects for its shot.
    ProjectileWeapon { attack: AttackMeta, gun: GunMeta, shot_sound: bool },
    Bomb { bomb: BombMeta },
}

/// An item, as a value that moves from the ground into an inventory and out again.
#[derive(Clone, Copy, Debug, PartialEq, Eq, Structural)]
pub struct ItemMeta {
    /// The item's metadata handle.
    pub id: u64,
    pub kind: ItemKind,
    /// Height of the item's image, used to lift a held item over the holder's head.
    pub image_height: i64,
}

} // verus!
