use bar_game::audio::{PlaybackLimits, SoundCategory};

#[test]
fn category_limit_prevents_excess() {
    let max = 3u32;
    let mut counts = PlaybackLimits::new(max);
    let cat = SoundCategory::Explosion;

    // Play sounds up to the limit.
    for _ in 0..max {
        assert!(counts.active_count(cat) < max);
        assert!(counts.can_play(cat));
        counts.record_play(cat);
    }

    // The next attempt is blocked.
    assert!(counts.active_count(cat) >= max, "should have hit the limit");
    assert!(!counts.can_play(cat));
}

#[test]
fn tick_resets_active_counts() {
    let mut counts = PlaybackLimits::new(8);
    for _ in 0..5 {
        counts.record_play(SoundCategory::WeaponFire);
    }
    for _ in 0..3 {
        counts.record_play(SoundCategory::Explosion);
    }
    assert_eq!(counts.active_count(SoundCategory::WeaponFire), 5);
    assert_eq!(counts.active_count(SoundCategory::Explosion), 3);

    counts.tick();

    assert_eq!(counts.active_count(SoundCategory::WeaponFire), 0);
    assert_eq!(counts.active_count(SoundCategory::Explosion), 0);
}

#[test]
fn limit_is_per_category() {
    let mut counts = PlaybackLimits::new(1);
    counts.record_play(SoundCategory::WeaponFire);
    assert!(!counts.can_play(SoundCategory::WeaponFire));
    assert!(counts.can_play(SoundCategory::Explosion));
    assert_eq!(counts.max_per_category(), 1);
}

#[test]
fn zero_limit_blocks_everything() {
    let counts = PlaybackLimits::new(0);
    assert!(!counts.can_play(SoundCategory::WeaponFire));
    assert!(!counts.can_play(SoundCategory::Explosion));
}
