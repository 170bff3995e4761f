//! Enchanted weapons and venomous enemies: which status effect a hit
//! carries, for how long, and how likely it is to land.

use vstd::prelude::*;
use rand::rngs::ThreadRng;
use crate::items::ItemType;
use crate::combat::EnemyType;
use crate::rng::gen_range_usize;

verus! {

/// A status effect on the player or an enemy.
#[derive(Clone, Copy, Debug, PartialEq, Eq, Hash, Structural)]
pub enum StatusEffectType {
    Burn,
    Freeze,
    Poison,
    Bleed,
    Regen,
    Stun,
    WellFed,
}

/// The effect a weapon puts on what it hits, with its length in seconds.
pub open spec fn spec_weapon_on_hit_effect(weapon: ItemType) -> Option<(StatusEffectType, u32)> {
    match weapon {
        ItemType::FlameBlade => Some((StatusEffectType::Burn, 4)),
        ItemType::FrostBlade => Some((StatusEffectType::Freeze, 3)),
        ItemType::VenomBlade => Some((StatusEffectType::Poison, 5)),
        _ => None,
    }
}

/// The status effect and its duration in seconds that this weapon applies
/// on hit, if any. The lifesteal blade heals instead.
pub fn weapon_on_hit_effect(weapon: ItemType) -> (e: Option<(StatusEffectType, u32)>)
    ensures
        e == spec_weapon_on_hit_effect(weapon),
{
    match weapon {
        ItemType::FlameBlade => Some((StatusEffectType::Burn, 4)),
        ItemType::FrostBlade => Some((StatusEffectType::Freeze, 3)),
        ItemType::VenomBlade => Some((StatusEffectType::Poison, 5)),
        _ => None,
    }
}

/// Percent chance that a weapon's effect lands: the frost blade freezes one
/// hit in three or so (30%), the other enchantments always take.
pub open spec fn spec_weapon_effect_chance(weapon: ItemType) -> u32 {
    if weapon == ItemType::FrostBlade { 30 } else { 100 }
}

/// Percent of the damage dealt that a weapon heals back.
pub open spec fn spec_weapon_lifesteal(weapon: ItemType) -> u32 {
    if weapon == ItemType::LifestealBlade { 15 } else { 0 }
}

/// The share of damage healed by lifesteal weapons, in percent.
pub fn weapon_lifesteal_fraction(weapon: ItemType) -> (p: u32)
    ensures
        p == spec_weapon_lifesteal(weapon),
{
    match weapon {
        ItemType::LifestealBlade => 15,
        _ => 0,
    }
}

/// The effect, its duration in seconds and its percent chance for an
/// enemy's melee hit on the player.
pub open spec fn spec_enemy_on_hit_effect(enemy_type: EnemyType) -> Option<(StatusEffectType, u32, u32)> {
    match enemy_type {
        EnemyType::FungalZombie => Some((StatusEffectType::Poison, 5, 30)),
        EnemyType::LavaElemental => Some((StatusEffectType::Burn, 4, 100)),
        EnemyType::IceWraith => Some((StatusEffectType::Freeze, 3, 50)),
        EnemyType::BogLurker => Some((StatusEffectType::Poison, 3, 20)),
        EnemyType::SandScorpion => Some((StatusEffectType::Poison, 4, 25)),
        _ => None,
    }
}

/// The status effect, duration in seconds and percent chance of an enemy's
/// melee attack, if it carries one.
pub fn enemy_on_hit_effect(enemy_type: EnemyType) -> (e: Option<(StatusEffectType, u32, u32)>)
    ensures
        e == spec_enemy_on_hit_effect(enemy_type),
{
    match enemy_type {
        EnemyType::FungalZombie => Some((StatusEffectType::Poison, 5, 30)),
        EnemyType::LavaElemental => Some((StatusEffectType::Burn, 4, 100)),
        EnemyType::IceWraith => Some((StatusEffectType::Freeze, 3, 50)),
        EnemyType::BogLurker => Some((StatusEffectType::Poison, 3, 20)),
        EnemyType::SandScorpion => Some((StatusEffectType::Poison, 4, 25)),
        _ => None,
    }
}

/// The effect a player's hit puts on the target, given a roll in 0..100:
/// the weapon's effect if the roll falls under its chance.
pub open spec fn spec_weapon_hit_status(weapon: ItemType, roll: u32) -> Option<(StatusEffectType, u32)> {
    if roll < spec_weapon_effect_chance(weapon) { spec_weapon_on_hit_effect(weapon) } else { None }
}

/// The effect a player's hit applies for a given percent roll.
pub fn weapon_hit_status_with_roll(weapon: ItemType, roll: u32) -> (e: Option<(StatusEffectType, u32)>)
    ensures
        e == spec_weapon_hit_status(weapon, roll),
{
    let chance: u32 = if weapon == ItemType::FrostBlade { 30 } else { 100 };
    if roll < chance { weapon_on_hit_effect(weapon) } else { None }
}

/// The effect an enemy's hit on the player applies, given a roll in 0..100.
pub open spec fn spec_enemy_hit_status(enemy_type: EnemyType, roll: u32) -> Option<(StatusEffectType, u32)> {
    match spec_enemy_on_hit_effect(enemy_type) {
        Some((effect, secs, chance)) => if roll < chance { Some((effect, secs)) } else { None },
        None => None,
    }
}

/// The effect an enemy's hit applies for a given percent roll.
pub fn enemy_hit_status_with_roll(enemy_type: EnemyType, roll: u32) -> (e: Option<(StatusEffectType, u32)>)
    ensures
        e == spec_enemy_hit_status(enemy_type, roll),
{
    match enemy_on_hit_effect(enemy_type) {
        Some((effect, secs, chance)) => if roll < chance { Some((effect, secs)) } else { None },
        None => None,
    }
}

fn roll_percent(rng: &mut ThreadRng) -> (r: u32)
    ensures
        r < 100,
{
    gen_range_usize(rng, 0, 100) as u32
}

/// Rolls for a player's hit: the result is what the weapon's effect table
/// gives for some roll in 0..100.
pub fn weapon_hit_status(weapon: ItemType, rng: &mut ThreadRng) -> (e: Option<(StatusEffectType, u32)>)
    ensures
        exists|roll: u32| roll < 100 && e == spec_weapon_hit_status(weapon, roll),
{
    let roll = roll_percent(rng);
    weapon_hit_status_with_roll(weapon, roll)
}

/// Rolls for an enemy's hit: the result is what the enemy's effect table
/// gives for some roll in 0..100.
pub fn enemy_hit_status(enemy_type: EnemyType, rng: &mut ThreadRng) -> (e: Option<(StatusEffectType, u32)>)
    ensures
        exists|roll: u32| roll < 100 && e == spec_enemy_hit_status(enemy_type, roll),
{
    let roll = roll_percent(rng);
    enemy_hit_status_with_roll(enemy_type, roll)
}

/// The flame and venom blades and the lava elemental always apply their
/// effect; an effect that lands is always the one in the table.
pub proof fn law_sure_effects(weapon: ItemType, enemy_type: EnemyType, roll: u32)
    requires
        roll < 100,
    ensures
        (weapon == ItemType::FlameBlade || weapon == ItemType::VenomBlade) ==>
            spec_weapon_hit_status(weapon, roll) == spec_weapon_on_hit_effect(weapon),
        enemy_type == EnemyType::LavaElemental ==>
            spec_enemy_hit_status(enemy_type, roll) == Some((StatusEffectType::Burn, 4u32)),
        spec_weapon_hit_status(weapon, roll).is_some() ==>
            spec_weapon_hit_status(weapon, roll) == spec_weapon_on_hit_effect(weapon),
{
}

} // verus!
