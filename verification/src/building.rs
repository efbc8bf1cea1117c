//! Building types and what completing a building or a factory-built unit
//! adds to it. Placement geometry, costs and the world itself stay with
//! the caller, which applies what these plans list.

use vstd::prelude::*;

use crate::units::{UnitDefRegistry, UnitDefView};

verus! {

/// Unit type id of the solar collector (FNV hash of "armsolar").
pub const BUILDING_SOLAR_ID: u32 = 789_715_014;

/// Unit type id of the metal extractor (FNV hash of "armmex").
pub const BUILDING_MEX_ID: u32 = 3_027_733_053;

/// Unit type id of the bot factory (FNV hash of "armlab").
pub const BUILDING_FACTORY_ID: u32 = 357_525_636;

/// The character of decimal digit `d`.
pub open spec fn digit_char(d: nat) -> char {
    (48 + d) as char
}

/// Decimal digits of `n`, most significant first, without sign or padding.
pub open spec fn decimal(n: nat) -> Seq<char>
    decreases n,
{
    if n < 10 {
        seq![digit_char(n)]
    } else {
        decimal(n / 10).push(digit_char(n % 10))
    }
}

/// The one-character string of decimal digit `d`.
fn digit_string(d: u32) -> (r: String)
    requires
        d < 10,
    ensures
        r@ == seq![digit_char(d as nat)],
{
    let r = match d {
        0 => {
            proof {
                reveal_strlit("0");
            }
            String::from_str("0")
        },
        1 => {
            proof {
                reveal_strlit("1");
            }
            String::from_str("1")
        },
        2 => {
            proof {
                reveal_strlit("2");
            }
            String::from_str("2")
        },
        3 => {
            proof {
                reveal_strlit("3");
            }
            String::from_str("3")
        },
        4 => {
            proof {
                reveal_strlit("4");
            }
            String::from_str("4")
        },
        5 => {
            proof {
                reveal_strlit("5");
            }
            String::from_str("5")
        },
        6 => {
            proof {
                reveal_strlit("6");
            }
            String::from_str("6")
        },
        7 => {
            proof {
                reveal_strlit("7");
            }
            String::from_str("7")
        },
        8 => {
            proof {
                reveal_strlit("8");
            }
            String::from_str("8")
        },
        _ => {
            proof {
                reveal_strlit("9");
            }
            String::from_str("9")
        },
    };
    assert(r@ =~= seq![digit_char(d as nat)]);
    r
}

/// The decimal digits of `n`, most significant first.
pub(crate) fn decimal_string(n: u32) -> (r: String)
    ensures
        r@ == decimal(n as nat),
    decreases n,
{
    if n < 10 {
        digit_string(n)
    } else {
        let high = decimal_string(n / 10);
        let low = digit_string(n % 10);
        let r = high.concat(low.as_str());
        assert(r@ =~= decimal((n / 10) as nat).push(digit_char((n % 10) as nat)));
        r
    }
}

/// The label of a building type: "Build <name>" for a registered type,
/// "Build #<id>" otherwise.
pub open spec fn placement_label(def: Option<UnitDefView>, id: u32) -> Seq<char> {
    match def {
        Some(d) => "Build "@ + d.name,
        None => "Build #"@ + decimal(id as nat),
    }
}

/// A building type that can be placed; wraps its unit type id.
#[derive(Clone, Copy, Debug, PartialEq, Eq, Structural)]
pub struct PlacementType(pub u32);

impl PlacementType {
    /// Human-readable label for this building type.
    pub fn label(self, registry: &UnitDefRegistry) -> (r: String)
        ensures
            r@ == placement_label(registry.lookup(self.0), self.0),
    {
        match registry.get(self.0) {
            Some(d) => String::from_str("Build ").concat(d.name.as_str()),
            None => {
                let digits = decimal_string(self.0);
                String::from_str("Build #").concat(digits.as_str())
            },
        }
    }
}

/// An entity that may be a building that construction just completed.
#[derive(Clone, Copy, Debug, PartialEq, Eq, Structural)]
pub struct BuildingCandidate {
    pub entity: u64,
    pub unit_type_id: u32,
    pub team: u8,
}

/// What finishing a building adds to it.
#[derive(Clone, Copy, Debug, PartialEq, Eq, Structural)]
pub struct FinalizeStep {
    pub entity: u64,
    pub unit_type_id: u32,
    pub team: u8,
    /// Add a resource producer (the definition produces metal or energy).
    pub add_producer: bool,
    /// A pure metal producer: its rate comes from the nearest metal spot.
    pub metal_from_spot: bool,
    /// Add a build queue (the building can build units: a factory).
    pub add_build_queue: bool,
    /// Add a builder (it has build power and builds no units: a nano tower).
    pub add_builder: bool,
}

/// The finishing step of candidate `c`, whose definition is `d`.
pub open spec fn finalize_step(c: BuildingCandidate, d: UnitDefView) -> FinalizeStep {
    FinalizeStep {
        entity: c.entity,
        unit_type_id: c.unit_type_id,
        team: c.team,
        add_producer: d.produces_energy || d.produces_metal,
        metal_from_spot: d.produces_metal && !d.produces_energy,
        add_build_queue: d.can_build.len() > 0,
        add_builder: d.has_build_power && d.can_build.len() == 0,
    }
}

/// The candidate is a building that the registry defines.
pub open spec fn is_building_candidate(registry: UnitDefRegistry, c: BuildingCandidate) -> bool {
    registry.lookup(c.unit_type_id) is Some && registry.lookup(c.unit_type_id)->0.is_building
}

/// The finishing steps for `candidates`: one per registered building, in
/// candidate order.
pub open spec fn finalize_steps(registry: UnitDefRegistry, candidates: Seq<BuildingCandidate>) -> Seq<
    FinalizeStep,
> {
    candidates.filter(|c: BuildingCandidate| is_building_candidate(registry, c)).map_values(
        |c: BuildingCandidate| finalize_step(c, registry.lookup(c.unit_type_id)->0),
    )
}

/// The first team-1 factory among `steps`, if any.
pub open spec fn first_team1_factory(steps: Seq<FinalizeStep>) -> Option<u64>
    decreases steps.len(),
{
    if steps.len() == 0 {
        None
    } else {
        match first_team1_factory(steps.drop_last()) {
            Some(f) => Some(f),
            None => if steps.last().add_build_queue && steps.last().team == 1 {
                Some(steps.last().entity)
            } else {
                None
            },
        }
    }
}

/// A step that gives team 1 a factory.
pub open spec fn is_team1_factory_step(step: FinalizeStep) -> bool {
    step.add_build_queue && step.team == 1
}

/// The factory handed to the AI is a team-1 factory of the pass, the first
/// one; there is none exactly when no step gives team 1 a factory. A factory
/// of another team is never handed over.
pub proof fn lemma_first_team1_factory(steps: Seq<FinalizeStep>)
    ensures
        match first_team1_factory(steps) {
            Some(e) => exists|k: int|
                0 <= k < steps.len() && steps[k].entity == e && steps[k].team == 1 && steps[k].add_build_queue
                    && forall|j: int| 0 <= j < k ==> !is_team1_factory_step(#[trigger] steps[j]),
            None => forall|k: int| 0 <= k < steps.len() ==> !is_team1_factory_step(#[trigger] steps[k]),
        },
    decreases steps.len(),
{
    if steps.len() > 0 {
        let init = steps.drop_last();
        lemma_first_team1_factory(init);
        match first_team1_factory(init) {
            Some(e) => {
                let k = choose|k: int|
                    0 <= k < init.len() && init[k].entity == e && init[k].team == 1 && init[k].add_build_queue
                        && forall|j: int| 0 <= j < k ==> !is_team1_factory_step(#[trigger] init[j]);
                assert(steps[k] == init[k]);
                assert forall|j: int| 0 <= j < k implies !is_team1_factory_step(#[trigger] steps[j]) by {
                    assert(steps[j] == init[j]);
                }
            },
            None => {
                let n = steps.len() - 1;
                assert forall|j: int| 0 <= j < n implies !is_team1_factory_step(#[trigger] steps[j]) by {
                    assert(steps[j] == init[j]);
                    assert(!is_team1_factory_step(init[j]));
                }
                if is_team1_factory_step(steps.last()) {
                    assert(steps[n] == steps.last());
                }
            },
        }
    }
}

/// Every completed building that the registry defines gets a step, and
/// every step is for such a candidate, keeping its entity, type and team.
/// What a step adds follows the building's definition: a resource producer
/// exactly when it produces metal or energy (the metal rate taken from the
/// nearest spot exactly for pure metal producers), a build queue exactly
/// when it can build units, and a builder exactly when it has build power
/// and builds no units.
pub proof fn lemma_finalize_rules(registry: UnitDefRegistry, candidates: Seq<BuildingCandidate>)
    ensures
        ({
            let steps = finalize_steps(registry, candidates);
            &&& forall|k: int| #![trigger steps[k]] 0 <= k < steps.len() ==> {
                let st = steps[k];
                let d = registry.lookup(st.unit_type_id)->0;
                &&& candidates.contains(BuildingCandidate { entity: st.entity, unit_type_id: st.unit_type_id, team: st.team })
                &&& registry.lookup(st.unit_type_id) is Some && d.is_building
                &&& st.add_producer == (d.produces_metal || d.produces_energy)
                &&& st.metal_from_spot == (d.produces_metal && !d.produces_energy)
                &&& st.add_build_queue == (d.can_build.len() > 0)
                &&& st.add_builder == (d.has_build_power && d.can_build.len() == 0)
            }
            &&& forall|i: int| #![trigger candidates[i]]
                0 <= i < candidates.len() && registry.lookup(candidates[i].unit_type_id) is Some
                    && registry.lookup(candidates[i].unit_type_id)->0.is_building ==> exists|k: int|
                    0 <= k < steps.len() && steps[k].entity == candidates[i].entity && steps[k].team
                        == candidates[i].team && steps[k].unit_type_id == candidates[i].unit_type_id
        }),
{
    broadcast use vstd::seq_lib::group_filter_ensures;
    let pred = |c: BuildingCandidate| is_building_candidate(registry, c);
    let f = |c: BuildingCandidate| finalize_step(c, registry.lookup(c.unit_type_id)->0);
    let kept = candidates.filter(pred);
    let steps = finalize_steps(registry, candidates);
    assert(steps == kept.map_values(f));
    assert forall|k: int| #![trigger steps[k]] 0 <= k < steps.len() implies {
        let st = steps[k];
        let d = registry.lookup(st.unit_type_id)->0;
        &&& candidates.contains(BuildingCandidate { entity: st.entity, unit_type_id: st.unit_type_id, team: st.team })
        &&& registry.lookup(st.unit_type_id) is Some && d.is_building
        &&& st.add_producer == (d.produces_metal || d.produces_energy)
        &&& st.metal_from_spot == (d.produces_metal && !d.produces_energy)
        &&& st.add_build_queue == (d.can_build.len() > 0)
        &&& st.add_builder == (d.has_build_power && d.can_build.len() == 0)
    } by {
        let c = kept[k];
        assert(pred(c));
        assert(kept.contains(c));
        candidates.lemma_filter_contains_rev(pred, c);
        assert(steps[k] == f(c));
        assert(c == BuildingCandidate { entity: steps[k].entity, unit_type_id: steps[k].unit_type_id, team: steps[k].team });
    }
    assert forall|i: int| #![trigger candidates[i]]
        0 <= i < candidates.len() && registry.lookup(candidates[i].unit_type_id) is Some
            && registry.lookup(candidates[i].unit_type_id)->0.is_building implies exists|k: int|
            0 <= k < steps.len() && steps[k].entity == candidates[i].entity && steps[k].team
                == candidates[i].team && steps[k].unit_type_id == candidates[i].unit_type_id by {
        assert(pred(candidates[i]));
        candidates.lemma_filter_contains(pred, i);
        let k = choose|k: int| 0 <= k < kept.len() && kept[k] == candidates[i];
        assert(steps[k] == f(kept[k]));
    }
}

/// Plan the finishing of completed buildings: for each candidate that is a
/// registered building, in order, what to add to it. Also returns the first
/// team-1 factory among them (for the AI to track).
pub fn plan_finalize(registry: &UnitDefRegistry, candidates: &Vec<BuildingCandidate>) -> (r: (
    Vec<FinalizeStep>,
    Option<u64>,
))
    ensures
        r.0@ == finalize_steps(*registry, candidates@),
        r.1 == first_team1_factory(r.0@),
{
    let ghost cs = candidates@;
    let ghost pred = |c: BuildingCandidate| is_building_candidate(*registry, c);
    let ghost f = |c: BuildingCandidate| finalize_step(c, registry.lookup(c.unit_type_id)->0);
    let mut steps: Vec<FinalizeStep> = Vec::new();
    let mut team1_factory: Option<u64> = None;
    let len = candidates.len();
    let mut i: usize = 0;
    while i < len
        invariant
            len == cs.len(),
            cs == candidates@,
            i <= len,
            pred == (|c: BuildingCandidate| is_building_candidate(*registry, c)),
            f == (|c: BuildingCandidate| finalize_step(c, registry.lookup(c.unit_type_id)->0)),
            steps@ == cs.take(i as int).filter(pred).map_values(f),
            team1_factory == first_team1_factory(steps@),
        decreases len - i,
    {
        let c = candidates[i];
        let ghost prev = cs.take(i as int).filter(pred);
        proof {
            assert(cs.take(i as int + 1).drop_last() =~= cs.take(i as int));
            assert(cs.take(i as int + 1).last() == c);
            reveal_with_fuel(Seq::filter, 1);
            assert(cs.take(i as int + 1).filter(pred) == if pred(c) { prev.push(c) } else { prev });
        }
        match registry.get(c.unit_type_id) {
            Some(d) => {
                if d.is_building {
                    assert(pred(c));
                    let step = FinalizeStep {
                        entity: c.entity,
                        unit_type_id: c.unit_type_id,
                        team: c.team,
                        add_producer: d.produces_energy || d.produces_metal,
                        metal_from_spot: d.produces_metal && !d.produces_energy,
                        add_build_queue: d.can_build.len() > 0,
                        add_builder: d.has_build_power && d.can_build.len() == 0,
                    };
                    let ghost before = steps@;
                    steps.push(step);
                    proof {
                        assert(f(c) == step);
                        assert(prev.push(c).map_values(f) =~= prev.map_values(f).push(f(c)));
                        assert(steps@.drop_last() =~= before);
                    }
                    if team1_factory.is_none() && step.add_build_queue && step.team == 1 {
                        team1_factory = Some(step.entity);
                    }
                } else {
                    assert(!pred(c));
                }
            },
            None => {
                assert(!pred(c));
            },
        }
        i += 1;
    }
    assert(cs.take(len as int) =~= cs);
    (steps, team1_factory)
}

/// A mobile unit that a factory spawned and that still lacks movement and
/// weapons.
#[derive(Clone, Copy, Debug, PartialEq, Eq, Structural)]
pub struct EquipStep {
    pub entity: u64,
    pub unit_type_id: u32,
    /// A construction unit: it also receives a builder.
    pub builder: bool,
}

/// The candidate (entity, unit type) is a registered mobile unit.
pub open spec fn is_mobile_candidate(registry: UnitDefRegistry, c: (u64, u32)) -> bool {
    registry.lookup(c.1) is Some && !registry.lookup(c.1)->0.is_building
}

/// The units to equip among `candidates`, in order.
pub open spec fn equip_steps(registry: UnitDefRegistry, candidates: Seq<(u64, u32)>) -> Seq<EquipStep> {
    candidates.filter(|c: (u64, u32)| is_mobile_candidate(registry, c)).map_values(
        |c: (u64, u32)| EquipStep { entity: c.0, unit_type_id: c.1, builder: registry.lookup(c.1)->0.is_builder },
    )
}

/// Exactly the registered mobile (non-building) units are equipped: every
/// step is for such a candidate and every such candidate gets a step; a
/// unit receives a builder exactly when its definition is a builder.
pub proof fn lemma_equip_rules(registry: UnitDefRegistry, candidates: Seq<(u64, u32)>)
    ensures
        ({
            let steps = equip_steps(registry, candidates);
            &&& forall|k: int| #![trigger steps[k]] 0 <= k < steps.len() ==> {
                &&& candidates.contains((steps[k].entity, steps[k].unit_type_id))
                &&& registry.lookup(steps[k].unit_type_id) is Some
                &&& !registry.lookup(steps[k].unit_type_id)->0.is_building
                &&& steps[k].builder == registry.lookup(steps[k].unit_type_id)->0.is_builder
            }
            &&& forall|i: int| #![trigger candidates[i]]
                0 <= i < candidates.len() && registry.lookup(candidates[i].1) is Some
                    && !registry.lookup(candidates[i].1)->0.is_building ==> exists|k: int|
                    0 <= k < steps.len() && steps[k].entity == candidates[i].0 && steps[k].unit_type_id == candidates[i].1
        }),
{
    broadcast use vstd::seq_lib::group_filter_ensures;
    let pred = |c: (u64, u32)| is_mobile_candidate(registry, c);
    let f = |c: (u64, u32)| EquipStep { entity: c.0, unit_type_id: c.1, builder: registry.lookup(c.1)->0.is_builder };
    let kept = candidates.filter(pred);
    let steps = equip_steps(registry, candidates);
    assert(steps == kept.map_values(f));
    assert forall|k: int| #![trigger steps[k]] 0 <= k < steps.len() implies {
        &&& candidates.contains((steps[k].entity, steps[k].unit_type_id))
        &&& registry.lookup(steps[k].unit_type_id) is Some
        &&& !registry.lookup(steps[k].unit_type_id)->0.is_building
        &&& steps[k].builder == registry.lookup(steps[k].unit_type_id)->0.is_builder
    } by {
        let c = kept[k];
        assert(pred(c));
        assert(kept.contains(c));
        candidates.lemma_filter_contains_rev(pred, c);
        assert(steps[k] == f(c));
        assert(c == (steps[k].entity, steps[k].unit_type_id));
    }
    assert forall|i: int| #![trigger candidates[i]]
        0 <= i < candidates.len() && registry.lookup(candidates[i].1) is Some
            && !registry.lookup(candidates[i].1)->0.is_building implies exists|k: int|
            0 <= k < steps.len() && steps[k].entity == candidates[i].0 && steps[k].unit_type_id == candidates[i].1 by {
        assert(pred(candidates[i]));
        candidates.lemma_filter_contains(pred, i);
        let k = choose|k: int| 0 <= k < kept.len() && kept[k] == candidates[i];
        assert(steps[k] == f(kept[k]));
    }
}

/// Plan the equipping of factory-spawned units: registered non-building
/// units, in order, and whether each is a construction unit. Unknown types
/// and buildings are skipped.
pub fn plan_equip(registry: &UnitDefRegistry, candidates: &Vec<(u64, u32)>) -> (r: Vec<EquipStep>)
    ensures
        r@ == equip_steps(*registry, candidates@),
{
    let ghost cs = candidates@;
    let ghost pred = |c: (u64, u32)| is_mobile_candidate(*registry, c);
    let ghost f = |c: (u64, u32)| EquipStep { entity: c.0, unit_type_id: c.1, builder: registry.lookup(c.1)->0.is_builder };
    let mut steps: Vec<EquipStep> = Vec::new();
    let len = candidates.len();
    let mut i: usize = 0;
    while i < len
        invariant
            len == cs.len(),
            cs == candidates@,
            i <= len,
            pred == (|c: (u64, u32)| is_mobile_candidate(*registry, c)),
            f == (|c: (u64, u32)| EquipStep { entity: c.0, unit_type_id: c.1, builder: registry.lookup(c.1)->0.is_builder }),
            steps@ == cs.take(i as int).filter(pred).map_values(f),
        decreases len - i,
    {
        let c = candidates[i];
        let ghost prev = cs.take(i as int).filter(pred);
        proof {
            assert(cs.take(i as int + 1).drop_last() =~= cs.take(i as int));
            assert(cs.take(i as int + 1).last() == c);
            reveal_with_fuel(Seq::filter, 1);
            assert(cs.take(i as int + 1).filter(pred) == if pred(c) { prev.push(c) } else { prev });
        }
        match registry.get(c.1) {
            Some(d) => {
                if !d.is_building {
                    assert(pred(c));
                    let step = EquipStep { entity: c.0, unit_type_id: c.1, builder: d.is_builder };
                    steps.push(step);
                    proof {
                        assert(f(c) == step);
                        assert(prev.push(c).map_values(f) =~= prev.map_values(f).push(f(c)));
                    }
                } else {
                    assert(!pred(c));
                }
            },
            None => {
                assert(!pred(c));
            },
        }
        i += 1;
    }
    assert(cs.take(len as int) =~= cs);
    steps
}

} // verus!
