use progression::items::bonus_stats::{BonusStat, BonusStatType};
use progression::rng::RngSource;

#[test]
fn generation_ranges_per_kind() {
    let mut rng = RngSource::from_seed(101);
    for _ in 0..20 {
        let health = BonusStat::from_type(BonusStatType::MaxHealthFlat, &mut rng);
        assert_eq!(health.stat_kind(), BonusStatType::MaxHealthFlat);
        assert!((77..137).contains(&health.amount()));

        let percent = BonusStat::from_type(BonusStatType::ArmorPercent, &mut rng);
        assert_eq!(percent.stat_kind(), BonusStatType::ArmorPercent);
        assert!((1700..3700).contains(&percent.amount()));

        let regen = BonusStat::from_type(BonusStatType::HealthRegen, &mut rng);
        assert!((200..700).contains(&regen.amount()));

        let mana = BonusStat::from_type(BonusStatType::MaxManaFlat, &mut rng);
        assert!((27..57).contains(&mana.amount()));
    }
}

#[test]
fn upgrade_adds_within_range_and_keeps_kind() {
    let mut rng = RngSource::from_seed(103);
    for _ in 0..20 {
        let mut stat = BonusStat::from_type(BonusStatType::MaxHealthFlat, &mut rng);
        let before = stat.amount();
        stat.upgrade(&mut rng);
        assert_eq!(stat.stat_kind(), BonusStatType::MaxHealthFlat);
        assert!((27..57).contains(&(stat.amount() - before)));

        let mut dodge = BonusStat::from_type(BonusStatType::DodgeChance, &mut rng);
        let before = dodge.amount();
        dodge.upgrade(&mut rng);
        assert!((100..400).contains(&(dodge.amount() - before)));

        let mut magic = BonusStat::from_type(BonusStatType::MagicDamagePercent, &mut rng);
        let before = magic.amount();
        magic.upgrade(&mut rng);
        assert!((1000..2200).contains(&(magic.amount() - before)));
    }
}

#[test]
fn random_from_empty_set_is_nothing() {
    let mut rng = RngSource::from_seed(107);
    let none = BonusStatType::random_from(&Vec::new(), &mut rng);
    assert_eq!(none, None);
}

#[test]
fn random_from_picks_a_candidate() {
    let mut rng = RngSource::from_seed(109);
    let candidates = vec![BonusStatType::ArmorFlat, BonusStatType::DodgeChance];
    for _ in 0..20 {
        let picked = BonusStatType::random_from(&candidates, &mut rng).unwrap();
        assert!(candidates.contains(&picked));
    }
}

#[test]
fn random_covers_catalog() {
    let mut rng = RngSource::from_seed(113);
    let mut seen = [false; 16];
    for _ in 0..2000 {
        let t = BonusStatType::random(&mut rng);
        seen[t.code() as usize] = true;
    }
    assert!(seen.iter().all(|s| *s), "every kind should appear in 2000 draws");
}

#[test]
fn codes_number_the_catalog() {
    assert_eq!(BonusStatType::MaxHealthFlat.code(), 0);
    assert_eq!(BonusStatType::AttackDamagePercent.code(), 7);
    assert_eq!(BonusStatType::DodgeChance.code(), 15);
    assert_eq!(BonusStatType::from_code(12), BonusStatType::ArmorPercent);
}
