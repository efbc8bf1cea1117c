//! Skirmish AI: a scripted opening, economic expansion, unit production in
//! every factory and wave attacks once the army is large enough.
//!
//! The caller reads the world into an [`AiView`], lets a strategy decide on
//! [`AiAction`]s, and carries out the [`AiCommand`] that each action
//! becomes. Coordinates are worked out by the caller from the commander's
//! position and the map's metal spots.

use vstd::prelude::*;

use crate::building::PlacementType;
use crate::rng::Lcg;
use crate::units::{BuildRole, UnitDefRegistry};

verus! {

/// AI decision interval in simulation frames (about 3 seconds at 30 fps).
pub const AI_TICK_INTERVAL: u64 = 90;

/// Minimum army size before attacking.
pub const ATTACK_THRESHOLD: usize = 5;

/// AI ticks between two attack waves (a wave every ~10 seconds).
pub const ATTACK_WAVE_TICKS: u64 = 300 / AI_TICK_INTERVAL;

/// Queue length at which a factory gets no further order.
pub const MAX_FACTORY_QUEUE: usize = 3;

/// Phases the AI progresses through.
#[derive(Clone, Copy, Debug, PartialEq, Eq, Structural)]
pub enum AiPhase {
    /// Build the first factory and initial economy.
    Opening,
    /// Produce units, expand the economy.
    Expand,
    /// Enough army accumulated: attack.
    Attack,
}

/// Where a building goes, relative to the commander.
#[derive(Clone, Copy, Debug, PartialEq, Eq, Structural)]
pub enum BuildSite {
    /// 40 east of the commander (the first factory).
    FactoryEast,
    /// 40 west of the commander (the second factory).
    FactoryWest,
    /// The opening solar, 30 north, shifted by the number of solars built.
    OpeningSolar(u32),
    /// An expansion solar, offset by the number of solars built.
    ExpandSolar(u32),
}

/// What the attack is aimed at.
#[derive(Clone, Copy, Debug, PartialEq, Eq, Structural)]
pub enum AttackTarget {
    /// The enemy commander's position.
    EnemyCommander,
    /// The position of the first enemy unit found.
    FirstEnemyUnit,
}

/// An action the AI strategy wants to perform.
#[derive(Clone, Copy, Debug, PartialEq, Eq, Structural)]
pub enum AiAction {
    /// Place a building of the given type at a site.
    PlaceBuilding(PlacementType, BuildSite),
    /// Queue a unit type at the given factory entity.
    QueueUnit(u64, u32),
    /// Send idle combat units toward a target.
    Attack(AttackTarget),
    /// Build a metal extractor on the metal spot with this index.
    Expand(usize),
}

/// A factory of the AI's team: its entity, unit type and queue length.
#[derive(Clone, Copy, Debug, PartialEq, Eq, Structural)]
pub struct FactoryInfo {
    pub entity: u64,
    pub unit_type_id: u32,
    pub queue_len: usize,
}

/// What a strategy reads of the world at an AI tick.
pub struct AiView {
    /// Unit type of the commander (0 when it has none).
    pub commander_type_id: u32,
    /// The commander has a position.
    pub commander_position_known: bool,
    /// The team's energy is below 200.
    pub energy_low: bool,
    /// The team's metal income is above 2 per tick.
    pub metal_income_above_2: bool,
    /// The team's metal income is above 5 per tick.
    pub metal_income_above_5: bool,
    /// Index of the first metal spot that is not yet claimed (not within 5
    /// of a claimed spot on either axis).
    pub unclaimed_spot: Option<usize>,
    /// The team's live factories (entities with a build queue).
    pub factories: Vec<FactoryInfo>,
    /// The enemy commander has a position.
    pub enemy_commander_position_known: bool,
    /// Some live enemy unit has a position.
    pub enemy_unit_exists: bool,
}

/// What carrying out an action asks of the caller.
#[derive(Clone, Copy, Debug, PartialEq, Eq, Structural)]
pub enum AiCommand {
    /// Place this building at this site with the commander.
    PlaceBuilding(PlacementType, BuildSite),
    /// Queue this unit type in this factory.
    QueueUnit(u64, u32),
    /// Send every idle combat unit toward the target.
    SendWave(AttackTarget),
    /// Place this metal extractor on this metal spot and claim the spot.
    PlaceExtractor(PlacementType, usize),
    /// Nothing to do.
    Skip,
}

/// The phase for the given factory state and army size.
pub open spec fn next_phase(has_factory: bool, army_size: int) -> AiPhase {
    if !has_factory {
        AiPhase::Opening
    } else if army_size >= ATTACK_THRESHOLD {
        AiPhase::Attack
    } else {
        AiPhase::Expand
    }
}

/// The sequence `seq![a]` when `a` is `Some`, empty otherwise.
pub open spec fn opt_seq(a: Option<AiAction>) -> Seq<AiAction> {
    match a {
        Some(x) => seq![x],
        None => Seq::empty(),
    }
}

/// First buildable of kind `role` for the commander, if any.
pub open spec fn first_buildable(registry: UnitDefRegistry, builder: u32, role: BuildRole) -> Option<u32> {
    if registry.buildable(builder, role).len() > 0 {
        Some(registry.buildable(builder, role)[0])
    } else {
        None
    }
}

/// Opening: the first factory east of the commander, and a solar while the
/// factory is being built.
pub open spec fn opening_actions(registry: UnitDefRegistry, builder: u32, solar_count: u32) -> Seq<AiAction> {
    let factory = match first_buildable(registry, builder, BuildRole::Factory) {
        Some(f) => Some(AiAction::PlaceBuilding(PlacementType(f), BuildSite::FactoryEast)),
        None => None,
    };
    let solar = match first_buildable(registry, builder, BuildRole::EnergyBuilding) {
        Some(s) => Some(AiAction::PlaceBuilding(PlacementType(s), BuildSite::OpeningSolar(solar_count))),
        None => None,
    };
    opt_seq(factory) + opt_seq(solar)
}

/// Energy is needed when it is low, or when metal income is high while
/// fewer than six solars exist.
pub open spec fn needs_energy(energy_low: bool, metal_income_above_2: bool, solar_count: u32) -> bool {
    energy_low || (metal_income_above_2 && solar_count < 6)
}

/// Expansion: an extractor on the first unclaimed metal spot, a solar when
/// energy is needed, and a second factory west of the commander once the
/// economy is stable (metal income above 5, three solars, fewer than two
/// factories).
pub open spec fn expand_actions(
    registry: UnitDefRegistry,
    builder: u32,
    solar_count: u32,
    energy_low: bool,
    metal_income_above_2: bool,
    metal_income_above_5: bool,
    unclaimed_spot: Option<usize>,
    factory_count: int,
) -> Seq<AiAction> {
    let spot = match unclaimed_spot {
        Some(i) => Some(AiAction::Expand(i)),
        None => None,
    };
    let solar = if needs_energy(energy_low, metal_income_above_2, solar_count) {
        match first_buildable(registry, builder, BuildRole::EnergyBuilding) {
            Some(s) => Some(AiAction::PlaceBuilding(PlacementType(s), BuildSite::ExpandSolar(solar_count))),
            None => None,
        }
    } else {
        None
    };
    let factory = if metal_income_above_5 && solar_count >= 3 && factory_count < 2 {
        match first_buildable(registry, builder, BuildRole::Factory) {
            Some(f) => Some(AiAction::PlaceBuilding(PlacementType(f), BuildSite::FactoryWest)),
            None => None,
        }
    } else {
        None
    };
    opt_seq(spot) + opt_seq(solar) + opt_seq(factory)
}

/// Multiplier of the production picker's hash.
pub const PICK_MULTIPLIER: u32 = 2_654_435_761;

/// The picker state after `s`: `s * PICK_MULTIPLIER + 1` modulo 2^32.
pub open spec fn pick_next(s: u32) -> u32 {
    ((s as nat * PICK_MULTIPLIER as nat + 1) % 0x1_0000_0000) as u32
}

/// The order for factory `f` with picker state `s`, if it gets one: a
/// combat unit it can build, picked by the state, unless its queue is full.
pub open spec fn produce_order(registry: UnitDefRegistry, f: FactoryInfo, s: u32) -> Option<AiAction> {
    let combat = registry.buildable(f.unit_type_id, BuildRole::Combat);
    if f.queue_len >= MAX_FACTORY_QUEUE || combat.len() == 0 {
        None
    } else {
        Some(AiAction::QueueUnit(f.entity, combat[(s as int) % (combat.len() as int)]))
    }
}

/// Production: one order for every factory in turn; the picker state
/// advances after each order given.
pub open spec fn produce_actions(registry: UnitDefRegistry, factories: Seq<FactoryInfo>, s: u32) -> Seq<AiAction>
    decreases factories.len(),
{
    if factories.len() == 0 {
        Seq::empty()
    } else {
        match produce_order(registry, factories[0], s) {
            Some(a) => seq![a] + produce_actions(registry, factories.skip(1), pick_next(s)),
            None => produce_actions(registry, factories.skip(1), s),
        }
    }
}

/// Initial picker state of a production round: derived from the number of
/// solars built.
pub open spec fn pick_seed(solar_count: u32) -> u32 {
    pick_next(solar_count)
}

/// Attack: once enough AI ticks passed since the last wave, aim at the
/// enemy commander, or else at any enemy unit.
pub open spec fn attack_actions(ticks_since_attack: u64, enemy_commander_known: bool, enemy_unit_exists: bool) -> Seq<AiAction> {
    if ticks_since_attack < ATTACK_WAVE_TICKS {
        Seq::empty()
    } else if enemy_commander_known {
        seq![AiAction::Attack(AttackTarget::EnemyCommander)]
    } else if enemy_unit_exists {
        seq![AiAction::Attack(AttackTarget::FirstEnemyUnit)]
    } else {
        Seq::empty()
    }
}

proof fn lemma_pick_by_wrapping(s: u32, product: u32, next: u32)
    requires
        product as int == (s as int * PICK_MULTIPLIER as int) % 0x1_0000_0000int,
        next as int == (product as int + 1) % 0x1_0000_0000int,
    ensures
        next == pick_next(s),
{
    let x: int = s as int * PICK_MULTIPLIER as int;
    vstd::arithmetic::div_mod::lemma_add_mod_noop(x, 1, 0x1_0000_0000int);
    assert(1int % 0x1_0000_0000int == 1);
}

/// Advance the production picker.
fn pick_step(s: u32) -> (r: u32)
    ensures
        r == pick_next(s),
{
    let product = s.wrapping_mul(PICK_MULTIPLIER);
    let next = product.wrapping_add(1);
    assert(next as int == (product as int + 1) % 0x1_0000_0000int);
    proof {
        lemma_pick_by_wrapping(s, product, next);
    }
    next
}

fn push_opt(v: &mut Vec<AiAction>, a: Option<AiAction>)
    ensures
        final(v)@ == old(v)@ + opt_seq(a),
{
    match a {
        Some(x) => {
            v.push(x);
            assert(final(v)@ =~= old(v)@ + seq![x]);
        },
        None => {
            assert(v@ =~= v@ + Seq::<AiAction>::empty());
        },
    }
}

/// The opening actions (see [`opening_actions`]).
pub fn opening(registry: &UnitDefRegistry, builder: u32, solar_count: u32) -> (r: Vec<AiAction>)
    ensures
        r@ == opening_actions(*registry, builder, solar_count),
{
    let mut actions: Vec<AiAction> = Vec::new();
    let factory = match registry.find_buildable(builder, BuildRole::Factory) {
        Some(f) => Some(AiAction::PlaceBuilding(PlacementType(f), BuildSite::FactoryEast)),
        None => None,
    };
    push_opt(&mut actions, factory);
    let solar = match registry.find_buildable(builder, BuildRole::EnergyBuilding) {
        Some(sid) => Some(AiAction::PlaceBuilding(PlacementType(sid), BuildSite::OpeningSolar(solar_count))),
        None => None,
    };
    push_opt(&mut actions, solar);
    assert(actions@ =~= opening_actions(*registry, builder, solar_count));
    actions
}

/// The expansion actions (see [`expand_actions`]).
pub fn expand(
    registry: &UnitDefRegistry,
    builder: u32,
    solar_count: u32,
    energy_low: bool,
    metal_income_above_2: bool,
    metal_income_above_5: bool,
    unclaimed_spot: Option<usize>,
    factory_count: usize,
) -> (r: Vec<AiAction>)
    ensures
        r@ == expand_actions(
            *registry,
            builder,
            solar_count,
            energy_low,
            metal_income_above_2,
            metal_income_above_5,
            unclaimed_spot,
            factory_count as int,
        ),
{
    let mut actions: Vec<AiAction> = Vec::new();
    let spot = match unclaimed_spot {
        Some(i) => Some(AiAction::Expand(i)),
        None => None,
    };
    push_opt(&mut actions, spot);
    let needs = energy_low || (metal_income_above_2 && solar_count < 6);
    let solar = if needs {
        match registry.find_buildable(builder, BuildRole::EnergyBuilding) {
            Some(sid) => Some(AiAction::PlaceBuilding(PlacementType(sid), BuildSite::ExpandSolar(solar_count))),
            None => None,
        }
    } else {
        None
    };
    push_opt(&mut actions, solar);
    let factory = if metal_income_above_5 && solar_count >= 3 && factory_count < 2 {
        match registry.find_buildable(builder, BuildRole::Factory) {
            Some(f) => Some(AiAction::PlaceBuilding(PlacementType(f), BuildSite::FactoryWest)),
            None => None,
        }
    } else {
        None
    };
    push_opt(&mut actions, factory);
    actions
}

/// The production orders (see [`produce_actions`]), starting from the
/// picker state derived from `solar_count`.
pub fn produce(registry: &UnitDefRegistry, factories: &Vec<FactoryInfo>, solar_count: u32) -> (r: Vec<AiAction>)
    ensures
        r@ == produce_actions(*registry, factories@, pick_seed(solar_count)),
{
    let ghost fs = factories@;
    let mut state = pick_step(solar_count);
    let ghost s0 = state;
    let mut actions: Vec<AiAction> = Vec::new();
    let len = factories.len();
    let mut i: usize = 0;
    proof {
        assert(fs.skip(0) =~= fs);
        assert(actions@ + produce_actions(*registry, fs, s0) =~= produce_actions(*registry, fs, s0));
    }
    while i < len
        invariant
            len == fs.len(),
            fs == factories@,
            i <= len,
            actions@ + produce_actions(*registry, fs.skip(i as int), state) == produce_actions(*registry, fs, s0),
        decreases len - i,
    {
        let f = factories[i];
        proof {
            assert(fs.skip(i as int)[0] == f);
            assert(fs.skip(i as int).skip(1) =~= fs.skip(i as int + 1));
        }
        if f.queue_len < MAX_FACTORY_QUEUE {
            let combat = registry.buildable_with_role(f.unit_type_id, BuildRole::Combat);
            if combat.len() > 0 {
                let idx = (state as usize) % combat.len();
                let a = AiAction::QueueUnit(f.entity, combat[idx]);
                let ghost before = actions@;
                let ghost s_before = state;
                actions.push(a);
                state = pick_step(state);
                proof {
                    assert(produce_order(*registry, f, s_before) == Some(a));
                    assert(actions@ + produce_actions(*registry, fs.skip(i as int + 1), state)
                        =~= before + (seq![a] + produce_actions(*registry, fs.skip(i as int + 1), state)));
                }
            }
        }
        i += 1;
    }
    proof {
        assert(fs.skip(len as int) =~= Seq::<FactoryInfo>::empty());
        assert(actions@ + Seq::<AiAction>::empty() =~= actions@);
    }
    actions
}

/// The attack actions (see [`attack_actions`]).
pub fn attack(ticks_since_attack: u64, enemy_commander_known: bool, enemy_unit_exists: bool) -> (r: Vec<AiAction>)
    ensures
        r@ == attack_actions(ticks_since_attack, enemy_commander_known, enemy_unit_exists),
{
    let mut actions: Vec<AiAction> = Vec::new();
    if ticks_since_attack < ATTACK_WAVE_TICKS {
        return actions;
    }
    if enemy_commander_known {
        actions.push(AiAction::Attack(AttackTarget::EnemyCommander));
    } else if enemy_unit_exists {
        actions.push(AiAction::Attack(AttackTarget::FirstEnemyUnit));
    }
    assert(actions@ =~= attack_actions(ticks_since_attack, enemy_commander_known, enemy_unit_exists));
    actions
}

/// The strategy's view of whether it may act: it needs its commander and
/// the commander's position.
pub open spec fn can_decide(state: AiState, view: AiView) -> bool {
    state.commander is Some && view.commander_position_known
}

/// Expansion actions of `state` under `view`.
pub open spec fn expand_for(registry: UnitDefRegistry, state: AiState, view: AiView) -> Seq<AiAction> {
    expand_actions(
        registry,
        view.commander_type_id,
        state.solar_count,
        view.energy_low,
        view.metal_income_above_2,
        view.metal_income_above_5,
        view.unclaimed_spot,
        view.factories@.len() as int,
    )
}

/// What the default strategy decides: the opening in the opening phase;
/// expansion and production in the expand phase; expansion, production and
/// an attack in the attack phase.
pub open spec fn default_decision(registry: UnitDefRegistry, state: AiState, view: AiView) -> Seq<AiAction> {
    if !can_decide(state, view) {
        Seq::empty()
    } else {
        match state.phase {
            AiPhase::Opening => opening_actions(registry, view.commander_type_id, state.solar_count),
            AiPhase::Expand => expand_for(registry, state, view) + produce_actions(
                registry,
                view.factories@,
                pick_seed(state.solar_count),
            ),
            AiPhase::Attack => expand_for(registry, state, view) + produce_actions(
                registry,
                view.factories@,
                pick_seed(state.solar_count),
            ) + attack_actions(
                state.ticks_since_attack,
                view.enemy_commander_position_known,
                view.enemy_unit_exists,
            ),
        }
    }
}

/// What the passive strategy decides: the opening in the opening phase,
/// expansion otherwise; it never produces units nor attacks.
pub open spec fn passive_decision(registry: UnitDefRegistry, state: AiState, view: AiView) -> Seq<AiAction> {
    if !can_decide(state, view) {
        Seq::empty()
    } else if state.phase == AiPhase::Opening {
        opening_actions(registry, view.commander_type_id, state.solar_count)
    } else {
        expand_for(registry, state, view)
    }
}

/// The default behaviour: scripted opening, economy expansion, production
/// and wave attacks.
pub struct DefaultStrategy;

impl DefaultStrategy {
    /// Decide this tick's actions.
    pub fn decide(&self, registry: &UnitDefRegistry, state: &AiState, view: &AiView) -> (r: Vec<AiAction>)
        ensures
            r@ == default_decision(*registry, *state, *view),
    {
        if state.commander.is_none() || !view.commander_position_known {
            return Vec::new();
        }
        match state.phase {
            AiPhase::Opening => opening(registry, view.commander_type_id, state.solar_count),
            AiPhase::Expand => {
                let mut actions = expand(
                    registry,
                    view.commander_type_id,
                    state.solar_count,
                    view.energy_low,
                    view.metal_income_above_2,
                    view.metal_income_above_5,
                    view.unclaimed_spot,
                    view.factories.len(),
                );
                let mut more = produce(registry, &view.factories, state.solar_count);
                actions.append(&mut more);
                actions
            },
            AiPhase::Attack => {
                let mut actions = expand(
                    registry,
                    view.commander_type_id,
                    state.solar_count,
                    view.energy_low,
                    view.metal_income_above_2,
                    view.metal_income_above_5,
                    view.unclaimed_spot,
                    view.factories.len(),
                );
                let mut more = produce(registry, &view.factories, state.solar_count);
                actions.append(&mut more);
                let mut wave = attack(
                    state.ticks_since_attack,
                    view.enemy_commander_position_known,
                    view.enemy_unit_exists,
                );
                actions.append(&mut wave);
                actions
            },
        }
    }
}

/// A passive AI that only builds economy (extractors and solars); it never
/// produces combat units nor attacks.
pub struct PassiveStrategy;

impl PassiveStrategy {
    /// Decide this tick's actions.
    pub fn decide(&self, registry: &UnitDefRegistry, state: &AiState, view: &AiView) -> (r: Vec<AiAction>)
        ensures
            r@ == passive_decision(*registry, *state, *view),
    {
        if state.commander.is_none() || !view.commander_position_known {
            return Vec::new();
        }
        if state.phase == AiPhase::Opening {
            opening(registry, view.commander_type_id, state.solar_count)
        } else {
            expand(
                registry,
                view.commander_type_id,
                state.solar_count,
                view.energy_low,
                view.metal_income_above_2,
                view.metal_income_above_5,
                view.unclaimed_spot,
                view.factories.len(),
            )
        }
    }
}

/// An action that builds an army: a queue order or an attack.
pub open spec fn is_military(a: AiAction) -> bool {
    a is QueueUnit || a is Attack
}

proof fn lemma_opening_not_military(registry: UnitDefRegistry, builder: u32, solar_count: u32, i: int)
    requires
        0 <= i < opening_actions(registry, builder, solar_count).len(),
    ensures
        opening_actions(registry, builder, solar_count)[i] is PlaceBuilding,
{
}

proof fn lemma_expand_not_military(
    registry: UnitDefRegistry,
    builder: u32,
    solar_count: u32,
    energy_low: bool,
    metal_income_above_2: bool,
    metal_income_above_5: bool,
    unclaimed_spot: Option<usize>,
    factory_count: int,
    i: int,
)
    requires
        0 <= i < expand_actions(
            registry,
            builder,
            solar_count,
            energy_low,
            metal_income_above_2,
            metal_income_above_5,
            unclaimed_spot,
            factory_count,
        ).len(),
    ensures
        !is_military(
            expand_actions(
                registry,
                builder,
                solar_count,
                energy_low,
                metal_income_above_2,
                metal_income_above_5,
                unclaimed_spot,
                factory_count,
            )[i],
        ),
{
    let spot = match unclaimed_spot {
        Some(k) => Some(AiAction::Expand(k)),
        None => None,
    };
    let a = opt_seq(spot);
    let all = expand_actions(
        registry,
        builder,
        solar_count,
        energy_low,
        metal_income_above_2,
        metal_income_above_5,
        unclaimed_spot,
        factory_count,
    );
    assert(all[i] is Expand || all[i] is PlaceBuilding);
}

/// The passive strategy only builds economy: it never queues units and
/// never attacks, whatever the world looks like.
pub proof fn lemma_passive_never_military(registry: UnitDefRegistry, state: AiState, view: AiView, i: int)
    requires
        0 <= i < passive_decision(registry, state, view).len(),
    ensures
        !is_military(passive_decision(registry, state, view)[i]),
{
    if can_decide(state, view) {
        if state.phase == AiPhase::Opening {
            lemma_opening_not_military(registry, view.commander_type_id, state.solar_count, i);
        } else {
            lemma_expand_not_military(
                registry,
                view.commander_type_id,
                state.solar_count,
                view.energy_low,
                view.metal_income_above_2,
                view.metal_income_above_5,
                view.unclaimed_spot,
                view.factories@.len() as int,
                i,
            );
        }
    }
}

/// In its opening the default strategy only places buildings.
pub proof fn lemma_opening_only_builds(registry: UnitDefRegistry, state: AiState, view: AiView, i: int)
    requires
        state.phase == AiPhase::Opening,
        0 <= i < default_decision(registry, state, view).len(),
    ensures
        default_decision(registry, state, view)[i] is PlaceBuilding,
{
    lemma_opening_not_military(registry, view.commander_type_id, state.solar_count, i);
}

/// `a` is a queue order for factory `f` whose queue is not full, for a
/// combat unit that `f` can build.
pub open spec fn order_for(registry: UnitDefRegistry, a: AiAction, f: FactoryInfo) -> bool {
    match a {
        AiAction::QueueUnit(e, u) => e == f.entity && f.queue_len < MAX_FACTORY_QUEUE
            && registry.buildable(f.unit_type_id, BuildRole::Combat).contains(u),
        _ => false,
    }
}

/// Every production order goes to a listed factory whose queue is not
/// full, for a combat unit that the factory's definition can build; there
/// are never more orders than factories.
pub proof fn lemma_produce_orders_valid(registry: UnitDefRegistry, factories: Seq<FactoryInfo>, s: u32, i: int)
    requires
        0 <= i < produce_actions(registry, factories, s).len(),
    ensures
        exists|k: int|
            0 <= k < factories.len() && order_for(
                registry,
                produce_actions(registry, factories, s)[i],
                #[trigger] factories[k],
            ),
        produce_actions(registry, factories, s).len() <= factories.len(),
    decreases factories.len(),
{
    let acts = produce_actions(registry, factories, s);
    let rest_f = factories.skip(1);
    match produce_order(registry, factories[0], s) {
        Some(a) => {
            let rest = produce_actions(registry, rest_f, pick_next(s));
            assert(acts == seq![a] + rest);
            if i == 0 {
                let f = factories[0];
                let combat = registry.buildable(f.unit_type_id, BuildRole::Combat);
                let idx = (s as int) % (combat.len() as int);
                assert(combat[idx] == combat[idx]);
                assert(combat.contains(combat[idx]));
                assert(order_for(registry, acts[0], factories[0]));
            } else {
                lemma_produce_orders_valid(registry, rest_f, pick_next(s), i - 1);
                let k = choose|k: int|
                    0 <= k < rest_f.len() && order_for(
                        registry,
                        produce_actions(registry, rest_f, pick_next(s))[i - 1],
                        #[trigger] rest_f[k],
                    );
                assert(rest_f[k] == factories[k + 1]);
                assert(acts[i] == rest[i - 1]);
            }
            if rest_f.len() > 0 {
                lemma_produce_len(registry, rest_f, pick_next(s));
            }
        },
        None => {
            lemma_produce_orders_valid(registry, rest_f, s, i);
            let k = choose|k: int|
                0 <= k < rest_f.len() && order_for(
                    registry,
                    produce_actions(registry, rest_f, s)[i],
                    #[trigger] rest_f[k],
                );
            assert(rest_f[k] == factories[k + 1]);
        },
    }
}

/// A factory is served by production when its queue has room and it can
/// build some combat unit.
pub open spec fn is_served(registry: UnitDefRegistry, f: FactoryInfo) -> bool {
    f.queue_len < MAX_FACTORY_QUEUE && registry.buildable(f.unit_type_id, BuildRole::Combat).len() > 0
}

/// Production serves every factory: each factory whose queue has room and
/// that can build a combat unit gets exactly one order, in factory order,
/// for a combat unit that it can build; the other factories get none.
pub proof fn lemma_produce_serves_every_factory(registry: UnitDefRegistry, factories: Seq<FactoryInfo>, s: u32)
    ensures
        ({
            let served = factories.filter(|f: FactoryInfo| is_served(registry, f));
            let orders = produce_actions(registry, factories, s);
            &&& orders.len() == served.len()
            &&& forall|k: int|
                0 <= k < orders.len() ==> (#[trigger] orders[k] matches AiAction::QueueUnit(e, u) && e
                    == served[k].entity && registry.buildable(served[k].unit_type_id, BuildRole::Combat).contains(u))
        }),
    decreases factories.len(),
{
    let pred = |f: FactoryInfo| is_served(registry, f);
    if factories.len() == 0 {
        assert(factories.filter(pred) =~= Seq::<FactoryInfo>::empty()) by {
            reveal_with_fuel(Seq::filter, 1);
        }
    } else {
        let f = factories[0];
        let rest = factories.skip(1);
        assert(factories =~= seq![f] + rest);
        rest.lemma_filter_prepend(f, pred);
        let served = factories.filter(pred);
        match produce_order(registry, f, s) {
            Some(a) => {
                lemma_produce_serves_every_factory(registry, rest, pick_next(s));
                assert(pred(f));
                assert(served == seq![f] + rest.filter(pred));
                let orders = produce_actions(registry, factories, s);
                let combat = registry.buildable(f.unit_type_id, BuildRole::Combat);
                assert(combat.contains(combat[(s as int) % (combat.len() as int)]));
                assert forall|k: int| 0 <= k < orders.len() implies (#[trigger] orders[k] matches AiAction::QueueUnit(e, u)
                    && e == served[k].entity && registry.buildable(served[k].unit_type_id, BuildRole::Combat).contains(u)) by {
                    if k > 0 {
                        assert(orders[k] == produce_actions(registry, rest, pick_next(s))[k - 1]);
                        assert(served[k] == rest.filter(pred)[k - 1]);
                    }
                }
            },
            None => {
                lemma_produce_serves_every_factory(registry, rest, s);
                assert(!pred(f));
                assert(served =~= rest.filter(pred));
            },
        }
    }
}

proof fn lemma_produce_len(registry: UnitDefRegistry, factories: Seq<FactoryInfo>, s: u32)
    ensures
        produce_actions(registry, factories, s).len() <= factories.len(),
    decreases factories.len(),
{
    if factories.len() > 0 {
        match produce_order(registry, factories[0], s) {
            Some(a) => lemma_produce_len(registry, factories.skip(1), pick_next(s)),
            None => lemma_produce_len(registry, factories.skip(1), s),
        }
    }
}

/// The AI is in its opening exactly when it has no factory, and attacks
/// exactly when it has a factory and an army of at least
/// [`ATTACK_THRESHOLD`] units.
pub proof fn lemma_phase_rules(has_factory: bool, army_size: int)
    ensures
        (next_phase(has_factory, army_size) == AiPhase::Opening) == !has_factory,
        (next_phase(has_factory, army_size) == AiPhase::Attack) == (has_factory && army_size
            >= ATTACK_THRESHOLD),
{
}

/// The opening places the first factory the commander can build east of
/// it, and a solar while the factory goes up; nothing else.
pub proof fn lemma_opening_rules(registry: UnitDefRegistry, builder: u32, solar_count: u32)
    ensures
        ({
            let acts = opening_actions(registry, builder, solar_count);
            &&& first_buildable(registry, builder, BuildRole::Factory) matches Some(f) ==> acts.contains(
                AiAction::PlaceBuilding(PlacementType(f), BuildSite::FactoryEast),
            )
            &&& first_buildable(registry, builder, BuildRole::EnergyBuilding) matches Some(sid) ==> acts.contains(
                AiAction::PlaceBuilding(PlacementType(sid), BuildSite::OpeningSolar(solar_count)),
            )
            &&& acts.len() <= 2
            &&& forall|k: int| 0 <= k < acts.len() ==> #[trigger] acts[k] is PlaceBuilding
        }),
{
    let acts = opening_actions(registry, builder, solar_count);
    match first_buildable(registry, builder, BuildRole::Factory) {
        Some(f) => {
            assert(acts[0] == AiAction::PlaceBuilding(PlacementType(f), BuildSite::FactoryEast));
        },
        None => {},
    }
    match first_buildable(registry, builder, BuildRole::EnergyBuilding) {
        Some(sid) => {
            let k = acts.len() - 1;
            assert(acts[k] == AiAction::PlaceBuilding(PlacementType(sid), BuildSite::OpeningSolar(solar_count)));
        },
        None => {},
    }
}

/// Expansion claims the unclaimed metal spot, if any; places a solar
/// exactly when energy is needed (energy low, or metal income above 2 with
/// fewer than six solars) and a solar can be built; and places a second
/// factory west exactly when metal income is above 5, three solars stand,
/// fewer than two factories exist and a factory can be built. Nothing else.
pub proof fn lemma_expand_rules(
    registry: UnitDefRegistry,
    builder: u32,
    solar_count: u32,
    energy_low: bool,
    metal_income_above_2: bool,
    metal_income_above_5: bool,
    unclaimed_spot: Option<usize>,
    factory_count: int,
)
    ensures
        ({
            let acts = expand_actions(
                registry,
                builder,
                solar_count,
                energy_low,
                metal_income_above_2,
                metal_income_above_5,
                unclaimed_spot,
                factory_count,
            );
            let wants_solar = energy_low || (metal_income_above_2 && solar_count < 6);
            let wants_factory = metal_income_above_5 && solar_count >= 3 && factory_count < 2;
            &&& forall|i: usize| acts.contains(AiAction::Expand(i)) <==> unclaimed_spot == Some(i)
            &&& forall|sid: u32| #![auto]
                acts.contains(AiAction::PlaceBuilding(PlacementType(sid), BuildSite::ExpandSolar(solar_count)))
                    <==> (wants_solar && first_buildable(registry, builder, BuildRole::EnergyBuilding) == Some(sid))
            &&& forall|f: u32| #![auto]
                acts.contains(AiAction::PlaceBuilding(PlacementType(f), BuildSite::FactoryWest))
                    <==> (wants_factory && first_buildable(registry, builder, BuildRole::Factory) == Some(f))
            &&& acts.len() <= 3
            &&& forall|k: int| 0 <= k < acts.len() ==> !is_military(#[trigger] acts[k])
        }),
{
    let spot = match unclaimed_spot {
        Some(i) => Some(AiAction::Expand(i)),
        None => None,
    };
    let wants_solar = energy_low || (metal_income_above_2 && solar_count < 6);
    let wants_factory = metal_income_above_5 && solar_count >= 3 && factory_count < 2;
    let solar = if wants_solar {
        match first_buildable(registry, builder, BuildRole::EnergyBuilding) {
            Some(x) => Some(AiAction::PlaceBuilding(PlacementType(x), BuildSite::ExpandSolar(solar_count))),
            None => None,
        }
    } else {
        None
    };
    let factory = if wants_factory {
        match first_buildable(registry, builder, BuildRole::Factory) {
            Some(x) => Some(AiAction::PlaceBuilding(PlacementType(x), BuildSite::FactoryWest)),
            None => None,
        }
    } else {
        None
    };
    let a = opt_seq(spot);
    let b = opt_seq(solar);
    let c = opt_seq(factory);
    let acts = a + b + c;
    assert(acts == expand_actions(
        registry,
        builder,
        solar_count,
        energy_low,
        metal_income_above_2,
        metal_income_above_5,
        unclaimed_spot,
        factory_count,
    ));
    assert forall|x: AiAction| acts.contains(x) <==> (a.contains(x) || b.contains(x) || c.contains(x)) by {
        if acts.contains(x) {
            let k = choose|k: int| 0 <= k < acts.len() && acts[k] == x;
            if k < a.len() {
                assert(a[k] == x);
            } else if k < a.len() + b.len() {
                assert(b[k - a.len()] == x);
            } else {
                assert(c[k - a.len() - b.len()] == x);
            }
        }
        if a.contains(x) {
            let k = choose|k: int| 0 <= k < a.len() && a[k] == x;
            assert(acts[k] == x);
        }
        if b.contains(x) {
            let k = choose|k: int| 0 <= k < b.len() && b[k] == x;
            assert(acts[a.len() + k] == x);
        }
        if c.contains(x) {
            let k = choose|k: int| 0 <= k < c.len() && c[k] == x;
            assert(acts[a.len() + b.len() + k] == x);
        }
    }
    assert forall|x: AiAction| a.contains(x) <==> (spot == Some(x)) by {
        if spot == Some(x) {
            assert(a[0] == x);
        }
    }
    assert forall|x: AiAction| b.contains(x) <==> (solar == Some(x)) by {
        if solar == Some(x) {
            assert(b[0] == x);
        }
    }
    assert forall|x: AiAction| c.contains(x) <==> (factory == Some(x)) by {
        if factory == Some(x) {
            assert(c[0] == x);
        }
    }
    lemma_expand_not_military_all(a, b, c, spot, solar, factory);
}

proof fn lemma_expand_not_military_all(
    a: Seq<AiAction>,
    b: Seq<AiAction>,
    c: Seq<AiAction>,
    spot: Option<AiAction>,
    solar: Option<AiAction>,
    factory: Option<AiAction>,
)
    requires
        a == opt_seq(spot),
        b == opt_seq(solar),
        c == opt_seq(factory),
        spot matches Some(x) ==> x is Expand,
        solar matches Some(x) ==> x is PlaceBuilding,
        factory matches Some(x) ==> x is PlaceBuilding,
    ensures
        forall|k: int| 0 <= k < (a + b + c).len() ==> !is_military(#[trigger] (a + b + c)[k]),
        (a + b + c).len() <= 3,
{
    assert forall|k: int| 0 <= k < (a + b + c).len() implies !is_military(#[trigger] (a + b + c)[k]) by {
        if k < a.len() {
            assert((a + b + c)[k] == a[k]);
        } else if k < a.len() + b.len() {
            assert((a + b + c)[k] == b[k - a.len()]);
        } else {
            assert((a + b + c)[k] == c[k - a.len() - b.len()]);
        }
    }
}

/// Attack waves are spaced: none before [`ATTACK_WAVE_TICKS`] AI ticks
/// since the last one; after that, one wave aimed at the enemy commander
/// when its position is known, else at some enemy unit, else none.
pub proof fn lemma_attack_rules(ticks: u64, commander_known: bool, unit_exists: bool)
    ensures
        ticks < ATTACK_WAVE_TICKS ==> attack_actions(ticks, commander_known, unit_exists).len() == 0,
        ticks >= ATTACK_WAVE_TICKS && commander_known ==> attack_actions(ticks, commander_known, unit_exists)
            == seq![AiAction::Attack(AttackTarget::EnemyCommander)],
        ticks >= ATTACK_WAVE_TICKS && !commander_known && unit_exists ==> attack_actions(
            ticks,
            commander_known,
            unit_exists,
        ) == seq![AiAction::Attack(AttackTarget::FirstEnemyUnit)],
        !commander_known && !unit_exists ==> attack_actions(ticks, commander_known, unit_exists).len() == 0,
{
}

/// In the attack phase the default strategy does everything it would do in
/// the expand phase (expansion, then production) and then adds the attack:
/// attacking never stops the economy or the production.
pub proof fn lemma_attack_extends_expand(registry: UnitDefRegistry, state: AiState, view: AiView)
    requires
        can_decide(state, view),
        state.phase == AiPhase::Attack,
    ensures
        default_decision(registry, state, view) == default_decision(
            registry,
            AiState { phase: AiPhase::Expand, ..state },
            view,
        ) + attack_actions(
            state.ticks_since_attack,
            view.enemy_commander_position_known,
            view.enemy_unit_exists,
        ),
{
    let expanding = AiState { phase: AiPhase::Expand, ..state };
    assert(can_decide(expanding, view));
    assert(expand_for(registry, expanding, view) == expand_for(registry, state, view));
    assert(pick_seed(expanding.solar_count) == pick_seed(state.solar_count));
}

/// Outside its opening, the default strategy's first action is an extractor
/// on the first unclaimed metal spot, whenever there is one.
pub proof fn lemma_default_claims_spot(registry: UnitDefRegistry, state: AiState, view: AiView, i: usize)
    requires
        can_decide(state, view),
        state.phase != AiPhase::Opening,
        view.unclaimed_spot == Some(i),
    ensures
        default_decision(registry, state, view).len() > 0,
        default_decision(registry, state, view)[0] == AiAction::Expand(i),
{
    let e = expand_for(registry, state, view);
    assert(e.len() > 0 && e[0] == AiAction::Expand(i));
    let p = produce_actions(registry, view.factories@, pick_seed(state.solar_count));
    if state.phase == AiPhase::Expand {
        assert((e + p)[0] == e[0]);
    } else {
        let a = attack_actions(state.ticks_since_attack, view.enemy_commander_position_known, view.enemy_unit_exists);
        assert((e + p + a)[0] == (e + p)[0]);
        assert((e + p)[0] == e[0]);
    }
}

/// Outside its opening, the passive strategy's first action is an
/// extractor on the first unclaimed metal spot, whenever there is one.
pub proof fn lemma_passive_claims_spot(registry: UnitDefRegistry, state: AiState, view: AiView, i: usize)
    requires
        can_decide(state, view),
        state.phase != AiPhase::Opening,
        view.unclaimed_spot == Some(i),
    ensures
        passive_decision(registry, state, view).len() > 0,
        passive_decision(registry, state, view)[0] == AiAction::Expand(i),
{
    let e = expand_for(registry, state, view);
    assert(e.len() > 0 && e[0] == AiAction::Expand(i));
}

/// The passive strategy does what the default strategy does, minus the
/// production and the attacks: its decision is always a prefix of the
/// default strategy's decision for the same state and view.
pub proof fn lemma_passive_is_prefix(registry: UnitDefRegistry, state: AiState, view: AiView)
    ensures
        passive_decision(registry, state, view).len() <= default_decision(registry, state, view).len(),
        forall|k: int|
            0 <= k < passive_decision(registry, state, view).len() ==> passive_decision(registry, state, view)[k]
                == default_decision(registry, state, view)[k],
{
    if can_decide(state, view) && state.phase != AiPhase::Opening {
        let e = expand_for(registry, state, view);
        let p = produce_actions(registry, view.factories@, pick_seed(state.solar_count));
        let a = attack_actions(state.ticks_since_attack, view.enemy_commander_position_known, view.enemy_unit_exists);
        assert forall|k: int| 0 <= k < e.len() implies (e + p)[k] == e[k] && (e + p + a)[k] == e[k] by {
            assert((e + p)[k] == e[k]);
            assert((e + p + a)[k] == (e + p)[k]);
        }
    }
}

/// Persistent AI state.
pub struct AiState {
    pub rng: Lcg,
    pub commander: Option<u64>,
    pub factory: Option<u64>,
    pub team: u8,
    pub enemy_team: u8,
    pub enemy_commander: Option<u64>,
    pub phase: AiPhase,
    /// Number of solars built (placements that succeeded).
    pub solar_count: u32,
    /// AI ticks since the last attack wave was sent.
    pub ticks_since_attack: u64,
}

impl AiState {
    /// A fresh AI in its opening.
    pub fn new(seed: u64, team: u8, enemy_team: u8, commander: Option<u64>, enemy_commander: Option<u64>) -> (r: Self)
        ensures
            r.rng.state() == seed,
            r.commander == commander,
            r.factory is None,
            r.team == team,
            r.enemy_team == enemy_team,
            r.enemy_commander == enemy_commander,
            r.phase == AiPhase::Opening,
            r.solar_count == 0,
            r.ticks_since_attack == 0,
    {
        AiState {
            rng: Lcg::new(seed),
            commander,
            factory: None,
            team,
            enemy_team,
            enemy_commander,
            phase: AiPhase::Opening,
            solar_count: 0,
            ticks_since_attack: 0,
        }
    }

    /// Start of an AI tick at `frame_count`. The AI acts only on multiples
    /// of [`AI_TICK_INTERVAL`] and while its commander is alive; then it
    /// forgets a factory that is gone, picks its phase from the factory and
    /// the army size, and counts the tick. Returns whether the strategy
    /// decides this tick.
    pub fn begin_tick(&mut self, frame_count: u64, commander_alive: bool, factory_alive: bool, army_size: usize) -> (r: bool)
        requires
            frame_count % AI_TICK_INTERVAL == 0 && old(self).commander is Some && commander_alive
                ==> old(self).ticks_since_attack < u64::MAX,
        ensures
            r == (frame_count % AI_TICK_INTERVAL == 0 && old(self).commander is Some && commander_alive),
            !r ==> *final(self) == *old(self),
            r ==> {
                let factory = if factory_alive { old(self).factory } else { None };
                &&& final(self).factory == factory
                &&& final(self).phase == next_phase(factory is Some, army_size as int)
                &&& final(self).ticks_since_attack == old(self).ticks_since_attack + 1
                &&& final(self).rng == old(self).rng
                &&& final(self).commander == old(self).commander
                &&& final(self).team == old(self).team
                &&& final(self).enemy_team == old(self).enemy_team
                &&& final(self).enemy_commander == old(self).enemy_commander
                &&& final(self).solar_count == old(self).solar_count
            },
    {
        if frame_count % AI_TICK_INTERVAL != 0 {
            return false;
        }
        if self.commander.is_none() || !commander_alive {
            return false;
        }
        if !factory_alive {
            self.factory = None;
        }
        self.phase = if self.factory.is_none() {
            AiPhase::Opening
        } else if army_size >= ATTACK_THRESHOLD {
            AiPhase::Attack
        } else {
            AiPhase::Expand
        };
        self.ticks_since_attack = self.ticks_since_attack + 1;
        true
    }

    /// Carry out one action of the strategy. `commander_type_id` is the
    /// commander's unit type and `idle_combat` the number of the team's
    /// idle combat units other than the commander. A placement is handed to
    /// the caller, which reports a placed building with
    /// [`AiState::record_placed_building`]; queueing tracks the factory
    /// (unless another one is tracked); an
    /// attack sends a wave only with at least [`ATTACK_THRESHOLD`] idle
    /// units, and then restarts the wave timer; an expansion places the
    /// commander's metal extractor, if it can build one.
    pub fn execute_action(
        &mut self,
        registry: &UnitDefRegistry,
        commander_type_id: u32,
        action: AiAction,
        idle_combat: usize,
    ) -> (r: AiCommand)
        ensures
            final(self).solar_count == old(self).solar_count,
            final(self).rng == old(self).rng,
            final(self).commander == old(self).commander,
            final(self).team == old(self).team,
            final(self).enemy_team == old(self).enemy_team,
            final(self).enemy_commander == old(self).enemy_commander,
            final(self).phase == old(self).phase,
            match action {
                AiAction::PlaceBuilding(p, site) => {
                    &&& r == AiCommand::PlaceBuilding(p, site)
                    &&& final(self).factory == old(self).factory
                    &&& final(self).ticks_since_attack == old(self).ticks_since_attack
                },
                AiAction::QueueUnit(f, u) => {
                    &&& r == AiCommand::QueueUnit(f, u)
                    &&& final(self).factory == if old(self).factory is None || old(self).factory
                        == Some(f) {
                        Some(f)
                    } else {
                        old(self).factory
                    }
                    &&& final(self).ticks_since_attack == old(self).ticks_since_attack
                },
                AiAction::Attack(t) => {
                    &&& final(self).factory == old(self).factory
                    &&& if idle_combat >= ATTACK_THRESHOLD {
                        r == AiCommand::SendWave(t) && final(self).ticks_since_attack == 0
                    } else {
                        r == AiCommand::Skip && final(self).ticks_since_attack
                            == old(self).ticks_since_attack
                    }
                },
                AiAction::Expand(i) => {
                    &&& final(self).factory == old(self).factory
                    &&& final(self).ticks_since_attack == old(self).ticks_since_attack
                    &&& r == match first_buildable(*registry, commander_type_id, BuildRole::MetalExtractor) {
                        Some(m) => AiCommand::PlaceExtractor(PlacementType(m), i),
                        None => AiCommand::Skip,
                    }
                },
            },
    {
        match action {
            AiAction::PlaceBuilding(p, site) => AiCommand::PlaceBuilding(p, site),
            AiAction::QueueUnit(f, u) => {
                if self.factory.is_none() || self.factory == Some(f) {
                    self.factory = Some(f);
                }
                AiCommand::QueueUnit(f, u)
            },
            AiAction::Attack(t) => {
                if idle_combat >= ATTACK_THRESHOLD {
                    self.ticks_since_attack = 0;
                    AiCommand::SendWave(t)
                } else {
                    AiCommand::Skip
                }
            },
            AiAction::Expand(i) => {
                match registry.find_buildable(commander_type_id, BuildRole::MetalExtractor) {
                    Some(m) => AiCommand::PlaceExtractor(PlacementType(m), i),
                    None => AiCommand::Skip,
                }
            },
        }
    }

    /// The caller placed a building of type `placement` for this AI: an
    /// energy building (a solar) counts as one more solar built.
    pub fn record_placed_building(&mut self, registry: &UnitDefRegistry, placement: PlacementType)
        requires
            registry.is_role(placement.0, BuildRole::EnergyBuilding) ==> old(self).solar_count < u32::MAX,
        ensures
            *final(self) == (AiState {
                solar_count: if registry.is_role(placement.0, BuildRole::EnergyBuilding) {
                    (old(self).solar_count + 1) as u32
                } else {
                    old(self).solar_count
                },
                ..*old(self)
            }),
    {
        match registry.get(placement.0) {
            Some(d) => {
                if crate::units::matches_role(d, BuildRole::EnergyBuilding) {
                    self.solar_count = self.solar_count + 1;
                }
            },
            None => {},
        }
    }
}

} // verus!
