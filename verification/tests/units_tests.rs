use bar_game::building::{plan_equip, plan_finalize, BuildingCandidate, EquipStep, FinalizeStep};
use bar_game::setup::{
    start_position_of,
    assign_weapon_ids, blueprint_build_time, commander_type_id, fog_dims, grid_dims, GridDims,
    InitOptions, MapExtent, FALLBACK_COMMANDER_TYPE_ID,
};
use bar_game::units::{UnitDef, UnitDefRegistry};

fn def(name: &str, id: u32) -> UnitDef {
    UnitDef {
        name: name.to_string(),
        unit_type_id: id,
        is_building: false,
        is_builder: false,
        is_factory: false,
        produces_metal: false,
        produces_energy: false,
        has_build_power: false,
        can_build: vec![],
    }
}

#[test]
fn registry_keeps_id_order_and_replaces() {
    let mut r = UnitDefRegistry::new();
    r.register(def("c", 30));
    r.register(def("a", 10));
    r.register(def("b", 20));
    assert_eq!(r.len(), 3);
    assert_eq!(r.def_at(0).unit_type_id, 10);
    assert_eq!(r.def_at(2).unit_type_id, 30);
    r.register(def("b2", 20));
    assert_eq!(r.len(), 3);
    assert_eq!(r.get(20).unwrap().name, "b2");
    assert!(r.get(25).is_none());
}

#[test]
fn find_by_lowercase_name() {
    let mut r = UnitDefRegistry::new();
    r.register(def("ArmCom", 5));
    r.register(def("armcom", 7));
    r.register(def("corcom", 3));
    // First in id order whose lower-cased name matches.
    assert_eq!(r.find_by_name("armcom"), Some(5));
    assert_eq!(r.find_by_name("corcom"), Some(3));
    assert_eq!(r.find_by_name("ARMCOM"), None);
    assert_eq!(commander_type_id(&r, 0), 5);
    assert_eq!(commander_type_id(&r, 1), 3);
    assert_eq!(commander_type_id(&UnitDefRegistry::new(), 1), FALLBACK_COMMANDER_TYPE_ID);
}

#[test]
fn finalize_plans() {
    let mut r = UnitDefRegistry::new();
    let mut solar = def("solar", 1);
    solar.is_building = true;
    solar.produces_energy = true;
    r.register(solar);
    let mut mex = def("mex", 2);
    mex.is_building = true;
    mex.produces_metal = true;
    r.register(mex);
    let mut lab = def("lab", 3);
    lab.is_building = true;
    lab.is_factory = true;
    lab.has_build_power = true;
    lab.can_build = vec![4];
    r.register(lab);
    r.register(def("bot", 4));
    let mut nano = def("nano", 5);
    nano.is_building = true;
    nano.has_build_power = true;
    r.register(nano);

    let cands = vec![
        BuildingCandidate { entity: 100, unit_type_id: 1, team: 0 },
        BuildingCandidate { entity: 101, unit_type_id: 4, team: 0 },
        BuildingCandidate { entity: 102, unit_type_id: 3, team: 1 },
        BuildingCandidate { entity: 103, unit_type_id: 2, team: 1 },
        BuildingCandidate { entity: 104, unit_type_id: 9, team: 1 },
        BuildingCandidate { entity: 105, unit_type_id: 3, team: 1 },
        BuildingCandidate { entity: 106, unit_type_id: 5, team: 0 },
    ];
    let (steps, factory) = plan_finalize(&r, &cands);
    assert_eq!(steps.len(), 5);
    assert_eq!(
        steps[0],
        FinalizeStep { entity: 100, unit_type_id: 1, team: 0, add_producer: true, metal_from_spot: false, add_build_queue: false, add_builder: false }
    );
    assert_eq!(
        steps[1],
        FinalizeStep { entity: 102, unit_type_id: 3, team: 1, add_producer: false, metal_from_spot: false, add_build_queue: true, add_builder: false }
    );
    assert_eq!(
        steps[2],
        FinalizeStep { entity: 103, unit_type_id: 2, team: 1, add_producer: true, metal_from_spot: true, add_build_queue: false, add_builder: false }
    );
    assert_eq!(steps[4].add_builder, true);
    // The first team-1 factory of the pass.
    assert_eq!(factory, Some(102));
}

#[test]
fn equip_plans() {
    let mut r = UnitDefRegistry::new();
    let mut lab = def("lab", 3);
    lab.is_building = true;
    r.register(lab);
    r.register(def("bot", 4));
    let mut con = def("con", 6);
    con.is_builder = true;
    r.register(con);
    let steps = plan_equip(&r, &vec![(1, 3), (2, 4), (3, 6), (4, 99)]);
    assert_eq!(
        steps,
        vec![
            EquipStep { entity: 2, unit_type_id: 4, builder: false },
            EquipStep { entity: 3, unit_type_id: 6, builder: true },
        ]
    );
}

#[test]
fn init_options_default_fog_on() {
    let o: InitOptions = Default::default();
    assert!(o.fog_of_war);
}

#[test]
fn grid_and_fog_sizes() {
    assert_eq!(grid_dims(None), GridDims { spatial_w: 64, spatial_h: 64, terrain_w: 64, terrain_h: 64 });
    let e = MapExtent { width: 128, height: 32, cell_size: 16 };
    assert_eq!(grid_dims(Some(e)), GridDims { spatial_w: 128, spatial_h: 64, terrain_w: 128, terrain_h: 32 });
    assert_eq!(fog_dims(None), (1024, 1024));
    assert_eq!(fog_dims(Some(e)), (2048, 1024));
}

#[test]
fn blueprint_times() {
    assert_eq!(blueprint_build_time(0), 60);
    assert_eq!(blueprint_build_time(120), 120);
}

#[test]
fn weapon_ids_are_consecutive() {
    let ids = assign_weapon_ids(3, &vec![2, 0, 1]);
    assert_eq!(ids, vec![vec![3, 4], vec![], vec![5]]);
}

#[test]
fn start_positions_by_team() {
    let teams = vec![1, 0, 1];
    assert_eq!(start_position_of(&teams, 0), Some(1));
    assert_eq!(start_position_of(&teams, 1), Some(0));
    assert_eq!(start_position_of(&teams, 2), None);
}
