use bar_game::camera::{CameraKey, FpsCounter, FpsSample, PanKeys};

fn fps_of(sample: Option<FpsSample>) -> f32 {
    match sample {
        Some(s) if s.elapsed_nanos > 0 => s.frames as f32 / (s.elapsed_nanos as f32 / 1e9),
        _ => 0.0,
    }
}

#[test]
fn fps_counter_starts_at_zero() {
    let mut fps = FpsCounter::new();
    assert_eq!(fps_of(fps.tick(1_000)), 0.0);
}

#[test]
fn fps_counter_window() {
    let mut fps = FpsCounter::new();
    assert_eq!(fps.tick(0), None);
    assert_eq!(fps.tick(10), Some(FpsSample { frames: 1, elapsed_nanos: 10 }));
    for t in 2..=150u64 {
        fps.tick(t * 10);
    }
    // The window keeps the last 100 frames: 520..=1510.
    assert_eq!(fps.tick(1510), Some(FpsSample { frames: 99, elapsed_nanos: 990 }));
    // A clock that goes back reads as no elapsed time.
    assert_eq!(fps.tick(0).unwrap().elapsed_nanos, 0);
}

#[test]
fn pan_keys_press_and_release() {
    let mut keys = PanKeys::new();
    keys.process_key(CameraKey::W, true);
    assert!(keys.forward);
    keys.process_key(CameraKey::D, true);
    keys.process_key(CameraKey::Other, true);
    assert!(keys.right && !keys.left && !keys.backward);
    keys.process_key(CameraKey::W, false);
    assert_eq!(keys, PanKeys { forward: false, left: false, backward: false, right: true });
    keys.process_key(CameraKey::A, true);
    keys.process_key(CameraKey::S, true);
    assert!(keys.left && keys.backward);
}
