//! Character stats: a fixed set of attributes, some of which carry a level
//! and experience of their own and so share the one experience curve.
//!
//! Fractional attributes (regeneration per second, attack speed, dodge
//! chance) carry their payload in ten-thousandths of a unit, in the same
//! scale the bonus stat catalog uses.

use vstd::prelude::*;

verus! {

use crate::xp_curve::xp_required;
use crate::xp_curve::xp_required_spec;

/// The closed set of character attribute kinds, used as the unique key of
/// a character's stat table.
#[derive(Clone, Copy, PartialEq, Eq, Structural, Debug, Hash)]
pub enum StatType {
    Level,
    Health,
    Mana,
    AttackDamage,
    AttackSpeed,
    MagicDamage,
    Defense,
    Strength,
    Wisdom,
    Crafting,
    Enhancement,
    Combat,
    Magic,
    Luck,
}

/// One character attribute.  The variant matches its `StatType` key;
/// leveled variants carry a level and experience, fractional payloads are
/// in ten-thousandths of a unit.
#[derive(Clone, Copy, PartialEq, Eq, Structural, Debug)]
pub enum Stat {
    Level { level: u32, xp: u64 },
    Health { max: u64, current: u64, regen: u64 },
    Mana { max: u64, current: u64, regen: u64 },
    AttackDamage(u64),
    AttackSpeed(u64),
    MagicDamage(u64),
    Defense { armor: u32, magic_resistance: u32, dodge_chance: u64 },
    Strength { level: u32, xp: u64 },
    Wisdom { level: u32, xp: u64 },
    Crafting { level: u32, xp: u64 },
    Enhancement { level: u32, xp: u64 },
    Combat { level: u32, xp: u64 },
    Magic { level: u32, xp: u64 },
    Luck { level: u32, xp: u64 },
}

/// The key a stat belongs under.
pub open spec fn stat_kind_of(s: Stat) -> StatType {
    match s {
        Stat::Level { .. } => StatType::Level,
        Stat::Health { .. } => StatType::Health,
        Stat::Mana { .. } => StatType::Mana,
        Stat::AttackDamage(_) => StatType::AttackDamage,
        Stat::AttackSpeed(_) => StatType::AttackSpeed,
        Stat::MagicDamage(_) => StatType::MagicDamage,
        Stat::Defense { .. } => StatType::Defense,
        Stat::Strength { .. } => StatType::Strength,
        Stat::Wisdom { .. } => StatType::Wisdom,
        Stat::Crafting { .. } => StatType::Crafting,
        Stat::Enhancement { .. } => StatType::Enhancement,
        Stat::Combat { .. } => StatType::Combat,
        Stat::Magic { .. } => StatType::Magic,
        Stat::Luck { .. } => StatType::Luck,
    }
}

/// The level a stat carries, where it carries one.
pub open spec fn stat_level_of(s: Stat) -> Option<u32> {
    match s {
        Stat::Level { level, .. } => Some(level),
        Stat::Strength { level, .. } => Some(level),
        Stat::Wisdom { level, .. } => Some(level),
        Stat::Crafting { level, .. } => Some(level),
        Stat::Enhancement { level, .. } => Some(level),
        Stat::Combat { level, .. } => Some(level),
        Stat::Magic { level, .. } => Some(level),
        Stat::Luck { level, .. } => Some(level),
        _ => None,
    }
}

impl Stat {
    /// The cost of leaving the stat's current level, for the stats that
    /// carry a level; nothing for the rest.
    pub fn xp_to_next_level(&self) -> (r: Option<u64>)
        ensures
            match stat_level_of(*self) {
                Some(l) => r matches Some(x) && x as nat == xp_required_spec(l as nat),
                None => r is None,
            },
    {
        match self {
            Stat::Level { level, .. } => Some(xp_required(*level)),
            Stat::Strength { level, .. } => Some(xp_required(*level)),
            Stat::Wisdom { level, .. } => Some(xp_required(*level)),
            Stat::Crafting { level, .. } => Some(xp_required(*level)),
            Stat::Enhancement { level, .. } => Some(xp_required(*level)),
            Stat::Combat { level, .. } => Some(xp_required(*level)),
            Stat::Magic { level, .. } => Some(xp_required(*level)),
            Stat::Luck { level, .. } => Some(xp_required(*level)),
            _ => None,
        }
    }
}

} // verus!
