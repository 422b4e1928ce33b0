use monstrous::arith::isqrt;

#[test]
fn small_roots_are_exact() {
    assert_eq!(isqrt(0), 0);
    assert_eq!(isqrt(1), 1);
    assert_eq!(isqrt(2), 1);
    assert_eq!(isqrt(3), 1);
    assert_eq!(isqrt(4), 2);
    assert_eq!(isqrt(10), 3);
    assert_eq!(isqrt(144), 12);
}

#[test]
fn roots_floor_between_squares() {
    assert_eq!(isqrt(999_999), 999);
    assert_eq!(isqrt(1_000_000), 1000);
    assert_eq!(isqrt(1_000_001), 1000);
    assert_eq!(isqrt(2_000_000), 1414);
}

#[test]
fn large_radicands_stay_exact() {
    let r = 0x7ff_ffff_ffffu64 as u128; // the largest root the radicand bound admits
    assert_eq!(isqrt(r * r), r as u64);
    assert_eq!(isqrt(r * r + 2 * r), r as u64);
}
