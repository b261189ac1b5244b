use progression::items::bonus_stats::{BonusStat, BonusStatType};
use progression::items::material::{total_xp, Material};
use progression::rng::RngSource;
use progression::xp_curve::xp_required;
use progression::{Armor, Artifact};

fn percent_artifact(seed: u64) -> (Artifact, RngSource) {
    let mut rng = RngSource::from_seed(seed);
    let main = BonusStat::from_type(BonusStatType::AttackDamagePercent, &mut rng);
    let artifact = Artifact::new("Ring", BonusStatType::AttackDamagePercent, main);
    (artifact, rng)
}

#[test]
fn multi_level_grant_lands_mid_level() {
    let (mut artifact, mut rng) = percent_artifact(7);
    let grant = xp_required(1) + xp_required(2) + 5;
    artifact.advance(grant, &mut rng);
    assert_eq!(artifact.level(), 3);
    assert_eq!(artifact.xp(), 5);
}

#[test]
fn zero_grant_changes_nothing() {
    let (mut artifact, mut rng) = percent_artifact(11);
    let level = artifact.level();
    let xp = artifact.xp();
    let main = artifact.main_stat();
    let subs = artifact.sub_stat_count();
    artifact.advance(0, &mut rng);
    assert_eq!(artifact.level(), level);
    assert_eq!(artifact.xp(), xp);
    assert_eq!(artifact.main_stat(), main);
    assert_eq!(artifact.sub_stat_count(), subs);
}

#[test]
fn xp_stays_under_next_level_cost() {
    let (mut artifact, mut rng) = percent_artifact(13);
    let grants = [0u64, 1, 999, 1000, 1001, 12345, 500_000, 3];
    for grant in grants {
        artifact.advance(grant, &mut rng);
        assert!(artifact.xp() < xp_required(artifact.level()));
    }
}

#[test]
fn exact_single_level_grant() {
    let (mut artifact, mut rng) = percent_artifact(17);
    let before = artifact.main_stat().amount();
    assert!((1700..3700).contains(&before));
    artifact.advance(xp_required(1), &mut rng);
    assert_eq!(artifact.level(), 2);
    assert_eq!(artifact.xp(), 0);
    let after = artifact.main_stat().amount();
    let delta = after - before;
    assert!((700..2200).contains(&delta));
    assert!((2400..5900).contains(&after));
}

#[test]
fn ten_levels_in_one_call() {
    let (mut artifact, mut rng) = percent_artifact(19);
    let before = artifact.main_stat().amount();
    let mut grant: u64 = 0;
    for level in 1..=10 {
        grant += xp_required(level);
    }
    artifact.advance(grant, &mut rng);
    assert_eq!(artifact.level(), 11);
    assert_eq!(artifact.xp(), 0);
    // Ten main-stat upgrades fired, each within the upgrade range.
    let delta = artifact.main_stat().amount() - before;
    assert!((10 * 700..=10 * 2199).contains(&delta));
    // The artifact policy unlocks a sub stat every four levels: at 4 and 8.
    assert_eq!(artifact.sub_stat_count(), 2);
}

#[test]
fn armor_unlocks_every_ten_levels() {
    let mut rng = RngSource::from_seed(23);
    let mut armor = Armor::new("Breastplate", &mut rng);
    assert_eq!(armor.level(), 1);
    assert_eq!(armor.xp(), 0);
    assert_eq!(armor.sub_stat_count(), 0);
    let kind = armor.main_stat_type();
    assert!(matches!(
        kind,
        BonusStatType::ArmorFlat
            | BonusStatType::ArmorPercent
            | BonusStatType::MagicResistanceFlat
            | BonusStatType::MagicResistancePercent
    ));
    let mut grant: u64 = 0;
    for level in 1..=10 {
        grant += xp_required(level);
    }
    armor.advance(grant, &mut rng);
    assert_eq!(armor.level(), 11);
    assert_eq!(armor.sub_stat_count(), 1);
    assert_eq!(armor.main_stat_type(), kind);
}

#[test]
fn main_stat_never_shrinks() {
    let mut rng = RngSource::from_seed(29);
    let mut armor = Armor::new("Helm", &mut rng);
    let mut previous = armor.main_stat().amount();
    for _ in 0..12 {
        armor.advance(50_000, &mut rng);
        let current = armor.main_stat().amount();
        assert!(current >= previous);
        previous = current;
    }
}

#[test]
fn sub_stat_keys_stay_unique_and_ordered() {
    let mut rng = RngSource::from_seed(31);
    let (mut artifact, _) = percent_artifact(31);
    artifact.advance(20_000_000, &mut rng);
    assert!(artifact.level() > 40);
    let n = artifact.sub_stat_count();
    assert!(n >= 2);
    assert!(n <= 16);
    let mut i = 1;
    while i < n {
        let (prev, _) = artifact.sub_stat_at(i - 1);
        let (here, stat) = artifact.sub_stat_at(i);
        assert!(prev.code() < here.code(), "keys must be unique and ordered");
        assert_eq!(stat.stat_kind(), here, "variant must match its key");
        i += 1;
    }
}

#[test]
fn materials_sum_before_applying() {
    let swords = Material::new("Old Sword", 600);
    let dust = Material::new("Dust", 401);
    assert_eq!(swords.name(), "Old Sword");
    assert_eq!(swords.xp(), 600);
    let batch = vec![swords, dust];
    assert_eq!(total_xp(&batch), 1001);
    let (mut artifact, mut rng) = percent_artifact(37);
    artifact.upgrade(&batch, &mut rng);
    assert_eq!(artifact.level(), 2);
    assert_eq!(artifact.xp(), 0);
}

#[test]
fn material_sum_saturates() {
    let a = Material::new("A", u64::MAX);
    let b = Material::new("B", 17);
    let batch = vec![a, b];
    assert_eq!(total_xp(&batch), u64::MAX);
}

#[test]
fn empty_batch_upgrade_is_a_no_op() {
    let mut rng = RngSource::from_seed(43);
    let mut armor = Armor::new("Greaves", &mut rng);
    armor.advance(30_000, &mut rng);
    let id = armor.id;
    let name = armor.name.clone();
    let level = armor.level();
    let xp = armor.xp();
    let main = armor.main_stat();
    let subs = armor.sub_stat_count();
    armor.upgrade(&Vec::new(), &mut rng);
    assert_eq!(armor.id, id);
    assert_eq!(armor.name, name);
    assert_eq!(armor.level(), level);
    assert_eq!(armor.xp(), xp);
    assert_eq!(armor.main_stat(), main);
    assert_eq!(armor.sub_stat_count(), subs);
}

#[test]
fn identity_survives_advancement() {
    let (mut artifact, mut rng) = percent_artifact(47);
    let id = artifact.id;
    artifact.advance(1_000_000, &mut rng);
    assert_eq!(artifact.id, id);
    let batch = vec![Material::new("Shard", 12345)];
    artifact.upgrade(&batch, &mut rng);
    assert_eq!(artifact.id, id);
}

#[test]
fn sub_stat_values_never_shrink() {
    let (mut artifact, mut rng) = percent_artifact(53);
    artifact.advance(5_000_000, &mut rng);
    let mut before = Vec::new();
    for i in 0..artifact.sub_stat_count() {
        let (t, s) = artifact.sub_stat_at(i);
        before.push((t, s.amount()));
    }
    assert!(!before.is_empty());
    artifact.advance(20_000_000, &mut rng);
    for (t, old_amount) in before {
        let mut found = false;
        for i in 0..artifact.sub_stat_count() {
            let (u, s) = artifact.sub_stat_at(i);
            if u == t {
                assert!(s.amount() >= old_amount, "a kept sub stat shrank");
                found = true;
            }
        }
        assert!(found, "a sub stat key vanished");
    }
}
