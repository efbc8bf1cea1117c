use bar_game::building::{PlacementType, BUILDING_FACTORY_ID, BUILDING_SOLAR_ID};
use bar_game::game::{
    choose_builder, game_over_for, is_commander_dead, CommanderProbe, GameControl,
    INITIAL_RNG_SEED,
};
use bar_game::units::{UnitDef, UnitDefRegistry};

const COMMANDER_0: u64 = 101;
const COMMANDER_1: u64 = 202;

fn make_test_game() -> GameControl {
    GameControl::new(Some(COMMANDER_0), Some(COMMANDER_1))
}

fn unit_def(name: &str, id: u32, is_building: bool) -> UnitDef {
    UnitDef {
        name: name.to_string(),
        unit_type_id: id,
        is_building,
        is_builder: false,
        is_factory: false,
        produces_metal: false,
        produces_energy: is_building,
        has_build_power: false,
        can_build: vec![],
    }
}

#[test]
fn game_test_paused_state() {
    let mut game = make_test_game();
    game.paused = true;
    assert!(game.paused);
    assert!(game.commander_team0.is_some());
}

#[test]
fn tests_test_paused_state() {
    let mut game = make_test_game();
    game.paused = true;
    assert!(game.paused);
    assert!(game.commander_team0.is_some());
}

#[test]
fn game_test_handle_build_command() {
    let mut game = make_test_game();
    assert!(game.placement_mode.is_none());

    game.handle_build_command(PlacementType(BUILDING_FACTORY_ID));
    assert_eq!(game.placement_mode, Some(PlacementType(BUILDING_FACTORY_ID)));

    game.handle_build_command(PlacementType(BUILDING_SOLAR_ID));
    assert_eq!(game.placement_mode, Some(PlacementType(BUILDING_SOLAR_ID)));
}

#[test]
fn tests_test_handle_build_command() {
    let mut game = make_test_game();
    assert!(game.placement_mode.is_none());

    game.handle_build_command(PlacementType(BUILDING_FACTORY_ID));
    assert_eq!(game.placement_mode, Some(PlacementType(BUILDING_FACTORY_ID)));

    game.handle_build_command(PlacementType(BUILDING_SOLAR_ID));
    assert_eq!(game.placement_mode, Some(PlacementType(BUILDING_SOLAR_ID)));
}

#[test]
fn game_ui_cancel_placement_right_click() {
    let mut game = make_test_game();
    game.handle_build_command(PlacementType(BUILDING_SOLAR_ID));
    assert!(game.placement_mode.is_some());
    game.placement_mode = None;
    assert!(game.placement_mode.is_none());
}

#[test]
fn tests_ui_cancel_placement_right_click() {
    let mut game = make_test_game();
    game.handle_build_command(PlacementType(BUILDING_SOLAR_ID));
    assert!(game.placement_mode.is_some());
    game.placement_mode = None;
    assert!(game.placement_mode.is_none());
}

fn registry_with_solar() -> UnitDefRegistry {
    let mut registry = UnitDefRegistry::new();
    registry.register(unit_def("armsolar", BUILDING_SOLAR_ID, true));
    registry
}

#[test]
fn game_test_placement_type_labels() {
    let registry = registry_with_solar();
    let solar = PlacementType(BUILDING_SOLAR_ID);
    let label = solar.label(&registry);
    assert!(label.starts_with("Build "), "Label should start with 'Build ': {}", label);
    let unknown = PlacementType(99999);
    assert!(unknown.label(&registry).starts_with("Build #"));
}

#[test]
fn tests_test_placement_type_labels() {
    let registry = registry_with_solar();
    let solar = PlacementType(BUILDING_SOLAR_ID);
    let label = solar.label(&registry);
    assert!(label.starts_with("Build "), "Label should start with 'Build ': {}", label);
    let unknown = PlacementType(99999);
    assert!(unknown.label(&registry).starts_with("Build #"));
}

#[test]
fn placement_labels_exact() {
    let registry = registry_with_solar();
    assert_eq!(PlacementType(BUILDING_SOLAR_ID).label(&registry), "Build armsolar");
    assert_eq!(PlacementType(99999).label(&registry), "Build #99999");
    assert_eq!(PlacementType(0).label(&registry), "Build #0");
    assert_eq!(PlacementType(u32::MAX).label(&registry), "Build #4294967295");
}

#[test]
fn game_over_outcomes() {
    assert!(game_over_for(false, false).is_none());
    let draw = game_over_for(true, true).unwrap();
    assert_eq!(draw.winner, None);
    assert_eq!(draw.reason, "Both commanders destroyed");
    let win = game_over_for(false, true).unwrap();
    assert_eq!(win.winner, Some(0));
    assert_eq!(win.reason, "Enemy commander destroyed");
    let loss = game_over_for(true, false).unwrap();
    assert_eq!(loss.winner, Some(1));
    assert_eq!(loss.reason, "Your commander was destroyed");
}

#[test]
fn game_over_is_sticky() {
    let mut game = make_test_game();
    assert!(!game.check_game_over(false, false));
    assert!(game.should_tick());
    assert!(game.check_game_over(false, true));
    assert_eq!(game.game_over.as_ref().unwrap().winner, Some(0));
    // A later change of fortune does not rewrite the result.
    assert!(game.check_game_over(true, false));
    assert_eq!(game.game_over.as_ref().unwrap().winner, Some(0));
    assert!(game.is_game_over());
    assert!(!game.should_tick());
}

#[test]
fn pause_stops_ticks() {
    let mut game = make_test_game();
    assert!(game.should_tick());
    game.toggle_pause();
    assert!(game.paused);
    assert!(!game.should_tick());
    game.toggle_pause();
    assert!(game.should_tick());
}

#[test]
fn reset_restores_fresh_game() {
    let mut game = make_test_game();
    game.handle_build_command(PlacementType(BUILDING_SOLAR_ID));
    game.advance_frame();
    game.advance_frame();
    game.track_team1_factory(Some(7));
    game.check_game_over(true, true);
    game.paused = true;
    game.reset(Some(5), Some(6));
    assert_eq!(game.frame_count, 0);
    assert!(game.placement_mode.is_none());
    assert_eq!(game.commander_team0, Some(5));
    assert_eq!(game.commander_team1, Some(6));
    assert!(game.factory_team1.is_none());
    assert!(game.game_over.is_none());
    assert_eq!(game.rng_seed, INITIAL_RNG_SEED + 7);
    assert!(game.paused);
}

#[test]
fn reset_seed_wraps() {
    let mut game = make_test_game();
    game.rng_seed = u64::MAX - 2;
    game.reset(None, None);
    assert_eq!(game.rng_seed, 4);
}

#[test]
fn first_team1_factory_is_tracked() {
    let mut game = make_test_game();
    assert_eq!(game.track_team1_factory(None), None);
    assert_eq!(game.track_team1_factory(Some(11)), Some(11));
    assert_eq!(game.track_team1_factory(Some(12)), None);
    assert_eq!(game.factory_team1, Some(11));
}

#[test]
fn take_placement_clears_mode() {
    let mut game = make_test_game();
    assert_eq!(game.take_placement(), None);
    game.handle_build_command(PlacementType(3));
    assert_eq!(game.take_placement(), Some(PlacementType(3)));
    assert!(game.placement_mode.is_none());
}

#[test]
fn commander_death_rules() {
    let alive = CommanderProbe { exists: true, marked_dead: false, health_above_zero: Some(true) };
    assert!(!is_commander_dead(Some(alive)));
    assert!(is_commander_dead(None));
    assert!(is_commander_dead(Some(CommanderProbe { exists: false, ..alive })));
    assert!(is_commander_dead(Some(CommanderProbe { marked_dead: true, ..alive })));
    assert!(is_commander_dead(Some(CommanderProbe { health_above_zero: None, ..alive })));
    assert!(is_commander_dead(Some(CommanderProbe { health_above_zero: Some(false), ..alive })));
}

#[test]
fn builder_choice_prefers_selected_builder() {
    assert_eq!(choose_builder(Some(9), true, Some(COMMANDER_0)), Some(9));
    assert_eq!(choose_builder(Some(9), false, Some(COMMANDER_0)), Some(COMMANDER_0));
    assert_eq!(choose_builder(None, false, None), None);
}
