use progression::xp_curve::xp_required;

#[test]
fn known_curve_values() {
    assert_eq!(xp_required(1), 1001);
    assert_eq!(xp_required(2), 2465);
    assert_eq!(xp_required(3), 4176);
    assert_eq!(xp_required(4), 6069);
    assert_eq!(xp_required(5), 8111);
    assert_eq!(xp_required(10), 19969);
    assert_eq!(xp_required(11), 22603);
}

#[test]
fn curve_strictly_increases() {
    let mut prev = xp_required(1);
    let mut level: u32 = 2;
    while level <= 120 {
        let next = xp_required(level);
        assert!(next > prev, "curve must strictly increase at level {level}");
        prev = next;
        level += 1;
    }
}

#[test]
fn curve_handles_large_levels() {
    let low = xp_required(1_000_000);
    let high = xp_required(1_000_001);
    assert!(high > low);
    assert!(low > 1000 * 1_000_000);
}
