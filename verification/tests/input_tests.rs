use bar_game::building::PlacementType;
use bar_game::game::GameControl;
use bar_game::input::{
    menu_entries, unit_display_name, MenuEntry,
    digit_key, handle_key_press, handle_mouse_press, process_ui_actions, Key, KeyOutcome,
    MouseButton, MouseOutcome, SelectedUnit, UiAction,
};
use bar_game::units::{UnitDef, UnitDefRegistry};

fn registry() -> UnitDefRegistry {
    let mut r = UnitDefRegistry::new();
    r.register(UnitDef {
        name: "armcom".to_string(),
        unit_type_id: 1,
        is_building: false,
        is_builder: true,
        is_factory: false,
        produces_metal: false,
        produces_energy: false,
        has_build_power: true,
        can_build: vec![100, 200],
    });
    r.register(UnitDef {
        name: "armlab".to_string(),
        unit_type_id: 2,
        is_building: true,
        is_builder: false,
        is_factory: true,
        produces_metal: false,
        produces_energy: false,
        has_build_power: true,
        can_build: vec![300],
    });
    r
}

const BUILDER: SelectedUnit = SelectedUnit { entity: 7, unit_type: Some(1), is_builder: true, is_factory: false };
const FACTORY: SelectedUnit = SelectedUnit { entity: 8, unit_type: Some(2), is_builder: false, is_factory: true };
const SOLDIER: SelectedUnit = SelectedUnit { entity: 9, unit_type: Some(5), is_builder: false, is_factory: false };

#[test]
fn digit_keys_map_to_slots() {
    assert_eq!(digit_key(1), Key::Digit(0));
    assert_eq!(digit_key(9), Key::Digit(8));
    assert_eq!(digit_key(0), Key::Digit(9));
}

#[test]
fn space_escape_and_reset() {
    let r = registry();
    let mut g = GameControl::new(Some(1), Some(2));
    assert_eq!(handle_key_press(&mut g, &r, Key::Space, false, None), KeyOutcome::TogglePause);
    assert!(g.paused);
    assert_eq!(handle_key_press(&mut g, &r, Key::R, false, None), KeyOutcome::Reset);
    assert_eq!(handle_key_press(&mut g, &r, Key::Escape, false, None), KeyOutcome::Exit);
    g.handle_build_command(PlacementType(100));
    assert_eq!(handle_key_press(&mut g, &r, Key::Escape, false, None), KeyOutcome::CancelPlacement);
    assert!(g.placement_mode.is_none());
    assert_eq!(handle_key_press(&mut g, &r, Key::Other, true, None), KeyOutcome::Nothing);
}

#[test]
fn digits_build_queue_or_group() {
    let r = registry();
    let mut g = GameControl::new(Some(1), Some(2));
    assert_eq!(handle_key_press(&mut g, &r, Key::Digit(3), true, Some(BUILDER)), KeyOutcome::SaveGroup(3));
    assert_eq!(handle_key_press(&mut g, &r, Key::Digit(3), false, None), KeyOutcome::RecallGroup(3));
    assert_eq!(handle_key_press(&mut g, &r, Key::Digit(1), false, Some(BUILDER)), KeyOutcome::EnterPlacement(PlacementType(200)));
    assert_eq!(g.placement_mode, Some(PlacementType(200)));
    assert_eq!(handle_key_press(&mut g, &r, Key::Digit(2), false, Some(BUILDER)), KeyOutcome::Nothing);
    assert_eq!(handle_key_press(&mut g, &r, Key::Digit(0), false, Some(FACTORY)), KeyOutcome::QueueUnit(8, 300));
    assert_eq!(handle_key_press(&mut g, &r, Key::Digit(1), false, Some(FACTORY)), KeyOutcome::Nothing);
    assert_eq!(handle_key_press(&mut g, &r, Key::Digit(4), false, Some(SOLDIER)), KeyOutcome::RecallGroup(4));
}

#[test]
fn mouse_in_and_out_of_placement() {
    let mut g = GameControl::new(Some(1), Some(2));
    assert_eq!(handle_mouse_press(&mut g, MouseButton::Left, false, false), MouseOutcome::Nothing);
    assert_eq!(handle_mouse_press(&mut g, MouseButton::Left, true, false), MouseOutcome::Select);
    assert_eq!(handle_mouse_press(&mut g, MouseButton::Left, true, true), MouseOutcome::ToggleSelect);
    assert_eq!(handle_mouse_press(&mut g, MouseButton::Right, true, false), MouseOutcome::MoveSelected);
    g.handle_build_command(PlacementType(5));
    assert_eq!(handle_mouse_press(&mut g, MouseButton::Other, true, false), MouseOutcome::Nothing);
    assert!(g.placement_mode.is_some());
    assert_eq!(handle_mouse_press(&mut g, MouseButton::Left, true, false), MouseOutcome::Place(PlacementType(5)));
    assert!(g.placement_mode.is_none());
    g.handle_build_command(PlacementType(5));
    assert_eq!(handle_mouse_press(&mut g, MouseButton::Right, true, false), MouseOutcome::CancelPlacement);
    assert!(g.placement_mode.is_none());
}

#[test]
fn menu_actions() {
    let mut g = GameControl::new(Some(1), Some(2));
    let actions = vec![UiAction::QueueUnit(3), UiAction::Build(10), UiAction::Build(11), UiAction::QueueUnit(4)];
    assert_eq!(process_ui_actions(&mut g, &actions, Some(8)), vec![(8, 3), (8, 4)]);
    assert_eq!(g.placement_mode, Some(PlacementType(11)));
    let mut h = GameControl::new(None, None);
    assert!(process_ui_actions(&mut h, &vec![UiAction::QueueUnit(3)], None).is_empty());
    assert!(h.placement_mode.is_none());
}

#[test]
fn build_menu_keeps_key_slots() {
    let mut r = registry();
    r.register(UnitDef {
        name: "armsolar".to_string(),
        unit_type_id: 200,
        is_building: true,
        is_builder: false,
        is_factory: false,
        produces_metal: false,
        produces_energy: true,
        has_build_power: false,
        can_build: vec![],
    });
    // Type 100 is not registered: its slot stays empty, the next keeps slot 1.
    assert_eq!(menu_entries(&r, Some(1)), vec![MenuEntry { slot: 1, unit_type_id: 200 }]);
    assert!(menu_entries(&r, Some(2)).is_empty());
    assert!(menu_entries(&r, None).is_empty());
    // The key of the entry picks it.
    let mut g = GameControl::new(None, None);
    assert_eq!(
        handle_key_press(&mut g, &r, Key::Digit(1), false, Some(BUILDER)),
        KeyOutcome::EnterPlacement(PlacementType(200))
    );
    assert_eq!(unit_display_name(&r, 200), "armsolar");
    assert_eq!(unit_display_name(&r, 42), "#42");
}

#[test]
fn build_menu_has_ten_keys() {
    let mut r = UnitDefRegistry::new();
    let options: Vec<u32> = (100..112).collect();
    for &id in &options {
        r.register(UnitDef {
            name: format!("u{}", id),
            unit_type_id: id,
            is_building: false,
            is_builder: false,
            is_factory: false,
            produces_metal: false,
            produces_energy: false,
            has_build_power: false,
            can_build: vec![],
        });
    }
    r.register(UnitDef {
        name: "con".to_string(),
        unit_type_id: 1,
        is_building: false,
        is_builder: true,
        is_factory: false,
        produces_metal: false,
        produces_energy: false,
        has_build_power: true,
        can_build: options.clone(),
    });
    let menu = menu_entries(&r, Some(1));
    assert_eq!(menu.len(), 10);
    assert_eq!(menu[9].slot, 9);
    assert_eq!(menu[9].unit_type_id, 109);
}
