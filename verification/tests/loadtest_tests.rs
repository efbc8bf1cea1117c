use bar_game::loadtest::{
    attack_move_target, ceil_sqrt, headless_attack_target, headless_spawn_grid, LoadtestState,
    SpawnOrder,
};

#[test]
fn default_is_disabled() {
    let mut s = LoadtestState::default();
    assert!(!s.enabled);
    assert_eq!(s.units_per_wave, 50);
    assert_eq!(s.wave_interval, 120);
    assert_eq!(s.max_units, 2000);
    assert!(s.tick(0, 0).is_none());
}

#[test]
fn new_is_enabled() {
    let s = LoadtestState::new(10, 30);
    assert!(s.enabled);
    assert_eq!(s.units_per_wave, 10);
    assert_eq!(s.max_units, 30);
    assert_eq!(s.wave_interval, 120);
    assert_eq!(s.weapon_id, None);
    assert_eq!(s.total_spawned, 0);
}

#[test]
fn waves_only_on_interval() {
    let mut s = LoadtestState::new(4, 100);
    assert!(s.tick(1, 0).is_none());
    assert_eq!(s.total_spawned, 0);
    let wave = s.tick(120, 7).unwrap();
    assert!(wave.register_weapon);
    assert_eq!(wave.weapon_id, 7);
    assert_eq!(
        wave.spawns,
        vec![
            SpawnOrder { x: 300, z: 800, team: 0 },
            SpawnOrder { x: 1700, z: 800, team: 1 },
            SpawnOrder { x: 316, z: 800, team: 0 },
            SpawnOrder { x: 1684, z: 800, team: 1 },
        ]
    );
    assert_eq!(s.total_spawned, 4);
    let second = s.tick(240, 9).unwrap();
    assert!(!second.register_weapon);
    assert_eq!(second.weapon_id, 7);
    assert_eq!(second.spawns[0], SpawnOrder { x: 300 + 4 * 16, z: 800, team: 0 });
    assert_eq!(s.total_spawned, 8);
}

#[test]
fn rows_of_twenty() {
    let mut s = LoadtestState::new(2, 100);
    s.total_spawned = 21;
    let wave = s.tick(0, 0).unwrap();
    assert_eq!(wave.spawns, vec![SpawnOrder { x: 316, z: 816, team: 0 }, SpawnOrder { x: 1684, z: 816, team: 1 }]);
}

#[test]
fn cap_limits_last_wave() {
    let mut s = LoadtestState::new(50, 55);
    s.tick(0, 0);
    assert_eq!(s.total_spawned, 50);
    let last = s.tick(120, 0).unwrap();
    // Five units left: all five spawn, three for team 0 and two for team 1.
    assert_eq!(last.spawns.len(), 5);
    assert_eq!(last.spawns.iter().filter(|o| o.team == 0).count(), 3);
    assert_eq!(last.spawns[4], SpawnOrder { x: 300 + 12 * 16, z: 800 + 2 * 16, team: 0 });
    assert_eq!(s.total_spawned, 55);
    assert!(s.tick(240, 0).is_none());
}

#[test]
fn attack_targets() {
    assert_eq!(attack_move_target(0), (1200, 1024));
    assert_eq!(attack_move_target(1), (800, 1024));
    assert_eq!(headless_attack_target(0), (500, 400));
    assert_eq!(headless_attack_target(1), (200, 400));
}

#[test]
fn ceil_sqrt_values() {
    assert_eq!(ceil_sqrt(0), 0);
    assert_eq!(ceil_sqrt(1), 1);
    assert_eq!(ceil_sqrt(2), 2);
    assert_eq!(ceil_sqrt(4), 2);
    assert_eq!(ceil_sqrt(5), 3);
    assert_eq!(ceil_sqrt(500), 23);
    assert_eq!(ceil_sqrt(2_147_483_647), 46341);
}

#[test]
fn headless_grid() {
    let g = headless_spawn_grid(5);
    assert_eq!(g.len(), 10);
    // Three columns.
    assert_eq!(g[0], SpawnOrder { x: 100, z: 100, team: 0 });
    assert_eq!(g[1], SpawnOrder { x: 600, z: 100, team: 1 });
    assert_eq!(g[6], SpawnOrder { x: 100, z: 120, team: 0 });
    assert_eq!(g[9], SpawnOrder { x: 620, z: 120, team: 1 });
    assert!(headless_spawn_grid(0).is_empty());
}
