use progression::stats::{Stat, StatType};
use progression::xp_curve::xp_required;
use progression::{Character, Inventory, XpCurve, XpCurveOption};

#[test]
fn fresh_character_table() {
    let c = Character::new("Hero");
    assert_eq!(c.name, "Hero");
    assert_eq!(
        c.stat(StatType::Level),
        Some(Stat::Level { level: 1, xp: 0 })
    );
    assert_eq!(
        c.stat(StatType::Health),
        Some(Stat::Health { max: 1000, current: 1000, regen: 20000 })
    );
    assert_eq!(
        c.stat(StatType::Mana),
        Some(Stat::Mana { max: 350, current: 350, regen: 15000 })
    );
    assert_eq!(c.stat(StatType::AttackSpeed), Some(Stat::AttackSpeed(10000)));
    assert_eq!(
        c.stat(StatType::Defense),
        Some(Stat::Defense { armor: 0, magic_resistance: 0, dodge_chance: 0 })
    );
    assert_eq!(c.stat(StatType::Luck), Some(Stat::Luck { level: 1, xp: 0 }));
    assert_eq!(c.stats.len(), 14);
}

#[test]
fn empty_inventory_by_default() {
    let inv = Inventory::default();
    assert_eq!(inv.armor.len(), 0);
    assert_eq!(inv.artifacts.len(), 0);
    assert_eq!(inv.materials.len(), 0);
    assert_eq!(inv.base_currency, 0);
    assert_eq!(inv.premium_currency, 0);
}

#[test]
fn leveled_stats_share_the_curve() {
    let level = Stat::Level { level: 3, xp: 17 };
    assert_eq!(level.xp_to_next_level(), Some(xp_required(3)));
    let strength = Stat::Strength { level: 7, xp: 0 };
    assert_eq!(strength.xp_to_next_level(), Some(xp_required(7)));
    let damage = Stat::AttackDamage(50);
    assert_eq!(damage.xp_to_next_level(), None);
}

#[test]
fn curve_trait_on_items() {
    let mut rng = progression::rng::RngSource::from_seed(41);
    let armor = progression::Armor::new("Plate", &mut rng);
    assert_eq!(XpCurve::xp_to_next_level(&armor), 1001);
    assert_eq!(XpCurveOption::xp_to_next_level(&armor), Some(1001));
}
