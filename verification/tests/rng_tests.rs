use bar_game::rng::Lcg;

#[test]
fn lcg_first_draws_are_exact() {
    let mut l = Lcg::new(1);
    // (1 * 6364136223846793005 + 1) >> 33
    assert_eq!(l.next_u32(), 740_882_966);
    let mut z = Lcg::new(0);
    // state 1 after one step: 1 >> 33 == 0
    assert_eq!(z.next_u32(), 0);
    // state 6364136223846793006 after two steps
    assert_eq!(z.next_u32(), 740_882_966);
}

#[test]
fn lcg_same_seed_same_sequence() {
    let mut a = Lcg::new(42);
    let mut b = Lcg::new(42);
    for _ in 0..1000 {
        let x = a.next_u32();
        assert_eq!(x, b.next_u32());
        assert!(x < 0x8000_0000);
    }
}

#[test]
fn lcg_wraps_around() {
    let mut l = Lcg::new(u64::MAX);
    let expected = u64::MAX.wrapping_mul(6_364_136_223_846_793_005).wrapping_add(1) >> 33;
    assert_eq!(l.next_u32() as u64, expected);
}
