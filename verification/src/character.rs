//! The player character: identity, the fixed initial stat table, and an
//! inventory of items.  The character consumes the progression engine; it
//! adds no rules of its own.

use vstd::prelude::*;

pub mod inventory;

verus! {

use crate::ident::new_id;
use crate::stats::Stat;
use crate::stats::StatType;
use crate::character::inventory::Inventory;

/// The stat table every fresh character starts with.  Fractional payloads
/// are in ten-thousandths of a unit: health regenerates two units and mana
/// one and a half per second, and attacks land once per second.
pub open spec fn initial_stats() -> Seq<(StatType, Stat)> {
    seq![
        (StatType::Level, Stat::Level { level: 1, xp: 0 }),
        (StatType::Health, Stat::Health { max: 1000, current: 1000, regen: 20000 }),
        (StatType::Mana, Stat::Mana { max: 350, current: 350, regen: 15000 }),
        (StatType::AttackDamage, Stat::AttackDamage(0)),
        (StatType::AttackSpeed, Stat::AttackSpeed(10000)),
        (StatType::MagicDamage, Stat::MagicDamage(0)),
        (
            StatType::Defense,
            Stat::Defense { armor: 0, magic_resistance: 0, dodge_chance: 0 },
        ),
        (StatType::Strength, Stat::Strength { level: 1, xp: 0 }),
        (StatType::Wisdom, Stat::Wisdom { level: 1, xp: 0 }),
        (StatType::Crafting, Stat::Crafting { level: 1, xp: 0 }),
        (StatType::Enhancement, Stat::Enhancement { level: 1, xp: 0 }),
        (StatType::Combat, Stat::Combat { level: 1, xp: 0 }),
        (StatType::Magic, Stat::Magic { level: 1, xp: 0 }),
        (StatType::Luck, Stat::Luck { level: 1, xp: 0 }),
    ]
}

/// A player character.
pub struct Character {
    pub id: uuid::Uuid,
    pub name: String,
    pub stats: Vec<(StatType, Stat)>,
    pub inventory: Inventory,
}

impl Character {
    /// A fresh character with the initial stat table and an empty
    /// inventory.
    pub fn new(name: &str) -> (c: Character)
        ensures
            c.name@ == name@,
            c.stats@ == initial_stats(),
            c.inventory.is_empty(),
    {
        let mut stats: Vec<(StatType, Stat)> = Vec::new();
        stats.push((StatType::Level, Stat::Level { level: 1, xp: 0 }));
        stats.push((StatType::Health, Stat::Health { max: 1000, current: 1000, regen: 20000 }));
        stats.push((StatType::Mana, Stat::Mana { max: 350, current: 350, regen: 15000 }));
        stats.push((StatType::AttackDamage, Stat::AttackDamage(0)));
        stats.push((StatType::AttackSpeed, Stat::AttackSpeed(10000)));
        stats.push((StatType::MagicDamage, Stat::MagicDamage(0)));
        stats.push(
            (StatType::Defense, Stat::Defense { armor: 0, magic_resistance: 0, dodge_chance: 0 }),
        );
        stats.push((StatType::Strength, Stat::Strength { level: 1, xp: 0 }));
        stats.push((StatType::Wisdom, Stat::Wisdom { level: 1, xp: 0 }));
        stats.push((StatType::Crafting, Stat::Crafting { level: 1, xp: 0 }));
        stats.push((StatType::Enhancement, Stat::Enhancement { level: 1, xp: 0 }));
        stats.push((StatType::Combat, Stat::Combat { level: 1, xp: 0 }));
        stats.push((StatType::Magic, Stat::Magic { level: 1, xp: 0 }));
        stats.push((StatType::Luck, Stat::Luck { level: 1, xp: 0 }));
        proof {
            assert(stats@ =~= initial_stats());
        }
        Character { id: new_id(), name: name.to_owned(), stats, inventory: Inventory::new() }
    }

    /// The stat under a key, where the table holds one.
    pub fn stat(&self, t: StatType) -> (r: Option<Stat>)
        ensures
            r matches Some(s) ==> exists|i: int|
                0 <= i < self.stats@.len() && #[trigger] self.stats@[i] == (t, s),
            r is None ==> forall|i: int|
                0 <= i < self.stats@.len() ==> (#[trigger] self.stats@[i]).0 != t,
    {
        let mut i: usize = 0;
        while i < self.stats.len()
            invariant
                i <= self.stats@.len(),
                forall|j: int| 0 <= j < i ==> (#[trigger] self.stats@[j]).0 != t,
            decreases self.stats@.len() - i,
        {
            let pair = self.stats[i];
            if pair.0 == t {
                return Some(pair.1);
            }
            i += 1;
        }
        None
    }
}

} // verus!
