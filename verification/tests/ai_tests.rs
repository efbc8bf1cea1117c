use bar_game::ai::{
    attack, expand, opening, produce, AiAction, AiCommand, AiPhase, AiState, AiView,
    AttackTarget, BuildSite, DefaultStrategy, FactoryInfo, PassiveStrategy, AI_TICK_INTERVAL,
};
use bar_game::building::PlacementType;
use bar_game::units::{BuildRole, UnitDef, UnitDefRegistry};

const COMMANDER: u32 = 10;
const FACTORY: u32 = 20;
const SOLAR: u32 = 30;
const MEX: u32 = 40;
const BOT_A: u32 = 50;
const BOT_B: u32 = 60;
const CON_BOT: u32 = 70;

fn def(name: &str, id: u32) -> UnitDef {
    UnitDef {
        name: name.to_string(),
        unit_type_id: id,
        is_building: false,
        is_builder: false,
        is_factory: false,
        produces_metal: false,
        produces_energy: false,
        has_build_power: false,
        can_build: vec![],
    }
}

fn registry() -> UnitDefRegistry {
    let mut r = UnitDefRegistry::new();
    let mut cmd = def("armcom", COMMANDER);
    cmd.is_builder = true;
    cmd.can_build = vec![SOLAR, MEX, FACTORY];
    r.register(cmd);
    let mut lab = def("armlab", FACTORY);
    lab.is_building = true;
    lab.is_factory = true;
    lab.can_build = vec![CON_BOT, BOT_A, BOT_B];
    r.register(lab);
    let mut solar = def("armsolar", SOLAR);
    solar.is_building = true;
    solar.produces_energy = true;
    r.register(solar);
    let mut mex = def("armmex", MEX);
    mex.is_building = true;
    mex.produces_metal = true;
    r.register(mex);
    r.register(def("armpw", BOT_A));
    r.register(def("armrock", BOT_B));
    let mut con = def("armck", CON_BOT);
    con.is_builder = true;
    r.register(con);
    r
}

fn view(factories: Vec<FactoryInfo>) -> AiView {
    AiView {
        commander_type_id: COMMANDER,
        commander_position_known: true,
        energy_low: false,
        metal_income_above_2: false,
        metal_income_above_5: false,
        unclaimed_spot: None,
        factories,
        enemy_commander_position_known: true,
        enemy_unit_exists: true,
    }
}

#[test]
fn test_ai_phase_transitions() {
    let mut ai = AiState::new(42, 1, 0, None, None);
    assert_eq!(ai.phase, AiPhase::Opening);
    ai.factory = Some(999);
}

#[test]
fn test_default_strategy_is_default() {
    let ai = AiState::new(42, 1, 0, None, None);
    assert_eq!(ai.phase, AiPhase::Opening);
    assert_eq!(ai.team, 1);
    assert_eq!(ai.enemy_team, 0);
}

#[test]
fn test_find_buildable_unknown_builder() {
    let registry = UnitDefRegistry::new();
    let result = registry.find_buildable(999_999, BuildRole::Any);
    assert!(result.is_none(), "Should return None for unknown builder type");
}

#[test]
fn find_buildable_respects_menu_order() {
    let r = registry();
    assert_eq!(r.find_buildable(COMMANDER, BuildRole::Factory), Some(FACTORY));
    assert_eq!(r.find_buildable(COMMANDER, BuildRole::EnergyBuilding), Some(SOLAR));
    assert_eq!(r.find_buildable(COMMANDER, BuildRole::MetalExtractor), Some(MEX));
    assert_eq!(r.find_buildable(COMMANDER, BuildRole::Any), Some(SOLAR));
    assert_eq!(r.find_buildable(FACTORY, BuildRole::Combat), Some(BOT_A));
    assert_eq!(r.buildable_with_role(FACTORY, BuildRole::Combat), vec![BOT_A, BOT_B]);
    assert_eq!(r.find_buildable(SOLAR, BuildRole::Any), None);
}

#[test]
fn tick_only_on_interval_with_live_commander() {
    let mut ai = AiState::new(42, 1, 0, Some(5), Some(6));
    assert!(!ai.begin_tick(1, true, false, 0));
    assert_eq!(ai.ticks_since_attack, 0);
    assert!(!ai.begin_tick(AI_TICK_INTERVAL, false, false, 0));
    assert!(ai.begin_tick(AI_TICK_INTERVAL, true, false, 0));
    assert_eq!(ai.ticks_since_attack, 1);
    assert_eq!(ai.phase, AiPhase::Opening);

    let mut no_cmd = AiState::new(42, 1, 0, None, None);
    assert!(!no_cmd.begin_tick(0, true, true, 10));
}

#[test]
fn phase_follows_factory_and_army() {
    let mut ai = AiState::new(42, 1, 0, Some(5), Some(6));
    ai.factory = Some(77);
    assert!(ai.begin_tick(0, true, true, 4));
    assert_eq!(ai.phase, AiPhase::Expand);
    assert!(ai.begin_tick(90, true, true, 5));
    assert_eq!(ai.phase, AiPhase::Attack);
    // The factory is gone: back to the opening, and it is forgotten.
    assert!(ai.begin_tick(180, true, false, 50));
    assert_eq!(ai.phase, AiPhase::Opening);
    assert_eq!(ai.factory, None);
}

#[test]
fn opening_places_factory_and_solar() {
    let r = registry();
    let acts = opening(&r, COMMANDER, 2);
    assert_eq!(
        acts,
        vec![
            AiAction::PlaceBuilding(PlacementType(FACTORY), BuildSite::FactoryEast),
            AiAction::PlaceBuilding(PlacementType(SOLAR), BuildSite::OpeningSolar(2)),
        ]
    );
    assert!(opening(&r, 12345, 0).is_empty());
}

#[test]
fn expand_rules() {
    let r = registry();
    assert!(expand(&r, COMMANDER, 0, false, false, false, None, 0).is_empty());
    assert_eq!(
        expand(&r, COMMANDER, 0, true, false, false, Some(3), 1),
        vec![
            AiAction::Expand(3),
            AiAction::PlaceBuilding(PlacementType(SOLAR), BuildSite::ExpandSolar(0)),
        ]
    );
    // High metal income wants solars only while fewer than six exist.
    assert_eq!(expand(&r, COMMANDER, 5, false, true, false, None, 2).len(), 1);
    assert!(expand(&r, COMMANDER, 6, false, true, false, None, 2).is_empty());
    // A second factory once the economy is stable.
    assert_eq!(
        expand(&r, COMMANDER, 3, false, false, true, None, 1),
        vec![AiAction::PlaceBuilding(PlacementType(FACTORY), BuildSite::FactoryWest)]
    );
    assert!(expand(&r, COMMANDER, 3, false, false, true, None, 2).is_empty());
}

#[test]
fn produce_picks_combat_units_deterministically() {
    let r = registry();
    let factories = vec![
        FactoryInfo { entity: 1, unit_type_id: FACTORY, queue_len: 0 },
        FactoryInfo { entity: 2, unit_type_id: FACTORY, queue_len: 3 },
        FactoryInfo { entity: 3, unit_type_id: FACTORY, queue_len: 2 },
        FactoryInfo { entity: 4, unit_type_id: SOLAR, queue_len: 0 },
    ];
    // Picker: seed = solar_count * 2654435761 + 1 (mod 2^32).
    let s0: u32 = 0u32.wrapping_mul(2_654_435_761).wrapping_add(1);
    let s1: u32 = s0.wrapping_mul(2_654_435_761).wrapping_add(1);
    let combat = [BOT_A, BOT_B];
    let expected = vec![
        AiAction::QueueUnit(1, combat[(s0 as usize) % 2]),
        AiAction::QueueUnit(3, combat[(s1 as usize) % 2]),
    ];
    assert_eq!(produce(&r, &factories, 0), expected);
    assert_eq!(s0, 1);
    assert_eq!(expected[0], AiAction::QueueUnit(1, BOT_B));
}

#[test]
fn attack_waits_for_wave_timer() {
    assert!(attack(2, true, true).is_empty());
    assert_eq!(attack(3, true, true), vec![AiAction::Attack(AttackTarget::EnemyCommander)]);
    assert_eq!(attack(3, false, true), vec![AiAction::Attack(AttackTarget::FirstEnemyUnit)]);
    assert!(attack(3, false, false).is_empty());
}

#[test]
fn default_strategy_by_phase() {
    let r = registry();
    let mut ai = AiState::new(42, 1, 0, Some(5), Some(6));
    let v = view(vec![FactoryInfo { entity: 1, unit_type_id: FACTORY, queue_len: 0 }]);
    assert_eq!(DefaultStrategy.decide(&r, &ai, &v).len(), 2);
    ai.phase = AiPhase::Expand;
    assert_eq!(DefaultStrategy.decide(&r, &ai, &v), vec![AiAction::QueueUnit(1, BOT_B)]);
    ai.phase = AiPhase::Attack;
    ai.ticks_since_attack = 3;
    assert_eq!(
        DefaultStrategy.decide(&r, &ai, &v),
        vec![AiAction::QueueUnit(1, BOT_B), AiAction::Attack(AttackTarget::EnemyCommander)]
    );
    let mut blind = view(vec![]);
    blind.commander_position_known = false;
    assert!(DefaultStrategy.decide(&r, &ai, &blind).is_empty());
}

#[test]
fn passive_strategy_never_fights() {
    let r = registry();
    let mut ai = AiState::new(42, 1, 0, Some(5), Some(6));
    let mut v = view(vec![FactoryInfo { entity: 1, unit_type_id: FACTORY, queue_len: 0 }]);
    v.energy_low = true;
    ai.phase = AiPhase::Attack;
    ai.ticks_since_attack = 100;
    let acts = PassiveStrategy.decide(&r, &ai, &v);
    assert_eq!(
        acts,
        vec![AiAction::PlaceBuilding(PlacementType(SOLAR), BuildSite::ExpandSolar(0))]
    );
}

#[test]
fn execute_actions_update_state() {
    let r = registry();
    let mut ai = AiState::new(42, 1, 0, Some(5), Some(6));
    let place = AiAction::PlaceBuilding(PlacementType(SOLAR), BuildSite::OpeningSolar(0));
    assert_eq!(ai.execute_action(&r, COMMANDER, place, 0), AiCommand::PlaceBuilding(PlacementType(SOLAR), BuildSite::OpeningSolar(0)));
    // Handing out a placement counts nothing: only a placed solar counts.
    assert_eq!(ai.solar_count, 0);
    let factory = AiAction::PlaceBuilding(PlacementType(FACTORY), BuildSite::FactoryEast);
    ai.execute_action(&r, COMMANDER, factory, 0);
    assert_eq!(ai.solar_count, 0);

    assert_eq!(ai.execute_action(&r, COMMANDER, AiAction::QueueUnit(8, BOT_A), 0), AiCommand::QueueUnit(8, BOT_A));
    assert_eq!(ai.factory, Some(8));
    ai.execute_action(&r, COMMANDER, AiAction::QueueUnit(9, BOT_A), 0);
    assert_eq!(ai.factory, Some(8));

    ai.ticks_since_attack = 4;
    let wave = AiAction::Attack(AttackTarget::EnemyCommander);
    assert_eq!(ai.execute_action(&r, COMMANDER, wave, 4), AiCommand::Skip);
    assert_eq!(ai.ticks_since_attack, 4);
    assert_eq!(ai.execute_action(&r, COMMANDER, wave, 5), AiCommand::SendWave(AttackTarget::EnemyCommander));
    assert_eq!(ai.ticks_since_attack, 0);

    assert_eq!(ai.execute_action(&r, COMMANDER, AiAction::Expand(2), 0), AiCommand::PlaceExtractor(PlacementType(MEX), 2));
    assert_eq!(ai.execute_action(&r, SOLAR, AiAction::Expand(2), 0), AiCommand::Skip);
}

#[test]
fn only_placed_solars_count() {
    let r = registry();
    let mut ai = AiState::new(42, 1, 0, Some(5), Some(6));
    ai.record_placed_building(&r, PlacementType(SOLAR));
    assert_eq!(ai.solar_count, 1);
    ai.record_placed_building(&r, PlacementType(FACTORY));
    ai.record_placed_building(&r, PlacementType(MEX));
    ai.record_placed_building(&r, PlacementType(999_999));
    assert_eq!(ai.solar_count, 1);
    ai.record_placed_building(&r, PlacementType(SOLAR));
    assert_eq!(ai.solar_count, 2);
}
