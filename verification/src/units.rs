//! Unit definitions as the game logic reads them, and the registry that
//! holds them ordered by unit type id.

use vstd::prelude::*;

verus! {

/// The facts of a unit definition that placement, production, the AI and
/// the input dispatch decide on.
pub struct UnitDef {
    pub name: String,
    pub unit_type_id: u32,
    /// A static structure (economy building, factory, defence).
    pub is_building: bool,
    /// A constructor (commander or construction unit).
    pub is_builder: bool,
    /// A building that produces units.
    pub is_factory: bool,
    /// The definition gives a metal production rate.
    pub produces_metal: bool,
    /// The definition gives an energy production rate.
    pub produces_energy: bool,
    /// The definition gives a build power.
    pub has_build_power: bool,
    /// Unit type ids this unit can build, in menu order.
    pub can_build: Vec<u32>,
}

/// Spec-level summary of a [`UnitDef`].
pub struct UnitDefView {
    pub name: Seq<char>,
    pub unit_type_id: u32,
    pub is_building: bool,
    pub is_builder: bool,
    pub is_factory: bool,
    pub produces_metal: bool,
    pub produces_energy: bool,
    pub has_build_power: bool,
    pub can_build: Seq<u32>,
}

impl View for UnitDef {
    type V = UnitDefView;

    open spec fn view(&self) -> UnitDefView {
        UnitDefView {
            name: self.name@,
            unit_type_id: self.unit_type_id,
            is_building: self.is_building,
            is_builder: self.is_builder,
            is_factory: self.is_factory,
            produces_metal: self.produces_metal,
            produces_energy: self.produces_energy,
            has_build_power: self.has_build_power,
            can_build: self.can_build@,
        }
    }
}

/// The kinds of buildable unit the game logic looks for.
#[derive(Clone, Copy, Debug, PartialEq, Eq, Structural)]
pub enum BuildRole {
    /// Any buildable unit.
    Any,
    /// A factory.
    Factory,
    /// An energy building that is not a factory (a solar collector).
    EnergyBuilding,
    /// A metal building that is not a factory (a metal extractor).
    MetalExtractor,
    /// A mobile combat unit: neither a building nor a builder.
    Combat,
}

/// Whether `d` is of kind `role`.
pub open spec fn has_role(d: UnitDefView, role: BuildRole) -> bool {
    match role {
        BuildRole::Any => true,
        BuildRole::Factory => d.is_factory,
        BuildRole::EnergyBuilding => d.is_building && d.produces_energy && !d.is_factory,
        BuildRole::MetalExtractor => d.is_building && d.produces_metal && !d.is_factory,
        BuildRole::Combat => !d.is_building && !d.is_builder,
    }
}

/// Whether `def` is of kind `role`.
pub fn matches_role(def: &UnitDef, role: BuildRole) -> (r: bool)
    ensures
        r == has_role(def@, role),
{
    match role {
        BuildRole::Any => true,
        BuildRole::Factory => def.is_factory,
        BuildRole::EnergyBuilding => def.is_building && def.produces_energy && !def.is_factory,
        BuildRole::MetalExtractor => def.is_building && def.produces_metal && !def.is_factory,
        BuildRole::Combat => !def.is_building && !def.is_builder,
    }
}

/// The definitions of `entries`, in order.
pub open spec fn views(entries: Seq<UnitDef>) -> Seq<UnitDefView> {
    entries.map_values(|d: UnitDef| d@)
}

/// Unit type ids strictly increase along `defs`.
pub open spec fn ids_increasing(defs: Seq<UnitDefView>) -> bool {
    forall|i: int, j: int| 0 <= i < j < defs.len() ==> defs[i].unit_type_id < defs[j].unit_type_id
}

/// `defs` holds a definition for `id`.
pub open spec fn has_def(defs: Seq<UnitDefView>, id: u32) -> bool {
    exists|i: int| 0 <= i < defs.len() && defs[i].unit_type_id == id
}

/// The definition of `id` in `defs`, if any.
pub open spec fn def_of(defs: Seq<UnitDefView>, id: u32) -> Option<UnitDefView> {
    if has_def(defs, id) {
        Some(defs[choose|i: int| 0 <= i < defs.len() && defs[i].unit_type_id == id])
    } else {
        None
    }
}

/// Lower-case form of a string, as `str::to_lowercase` computes it.
pub uninterp spec fn lowercase(s: Seq<char>) -> Seq<char>;

/// `str::to_lowercase`: the lower-case form of `s` (full Unicode case
/// mapping). Its result is named, not spelled out.
#[verifier::external_body]
fn to_lowercase(s: &str) -> (r: String)
    ensures
        r@ == lowercase(s@),
{
    s.to_lowercase()
}

/// Registry of unit definitions, ordered by unit type id; one definition
/// per id.
pub struct UnitDefRegistry {
    defs: Vec<UnitDef>,
}

impl UnitDefRegistry {
    /// The definitions, ordered by unit type id.
    pub closed spec fn entries(&self) -> Seq<UnitDefView> {
        views(self.defs@)
    }

    /// Ids strictly increase along the entries.
    #[verifier::type_invariant]
    pub closed spec fn wf(&self) -> bool {
        ids_increasing(self.entries())
    }

    /// The definition of `id`, if registered.
    pub open spec fn lookup(&self, id: u32) -> Option<UnitDefView> {
        def_of(self.entries(), id)
    }

    proof fn lemma_lookup_at(&self, i: int)
        requires
            self.wf(),
            0 <= i < self.entries().len(),
        ensures
            self.lookup(self.entries()[i].unit_type_id) == Some(self.entries()[i]),
    {
        let id = self.entries()[i].unit_type_id;
        assert(has_def(self.entries(), id));
        let k = choose|k: int| 0 <= k < self.entries().len() && self.entries()[k].unit_type_id == id;
        if k != i {
            assert(self.entries()[k].unit_type_id != self.entries()[i].unit_type_id);
        }
    }

    /// An empty registry.
    pub fn new() -> (r: Self)
        ensures
            r.entries() == Seq::<UnitDefView>::empty(),
    {
        let r = UnitDefRegistry { defs: Vec::new() };
        assert(r.entries() =~= Seq::<UnitDefView>::empty());
        r
    }

    /// Number of registered definitions.
    pub fn len(&self) -> (r: usize)
        ensures
            r == self.entries().len(),
    {
        self.defs.len()
    }

    /// The `i`-th definition in id order.
    pub fn def_at(&self, i: usize) -> (r: &UnitDef)
        requires
            i < self.entries().len(),
        ensures
            r@ == self.entries()[i as int],
    {
        &self.defs[i]
    }

    /// Register `def`, replacing any definition with the same id.
    pub fn register(&mut self, def: UnitDef)
        ensures
            forall|id: u32| #[trigger] final(self).lookup(id) == if id == def.unit_type_id {
                Some(def@)
            } else {
                old(self).lookup(id)
            },
    {
        proof {
            use_type_invariant(&*self);
        }
        let ghost d = def@;
        let ghost old_entries = self.entries();
        let mut defs: Vec<UnitDef> = Vec::new();
        std::mem::swap(&mut defs, &mut self.defs);
        let id = def.unit_type_id;
        let len = defs.len();
        let mut i: usize = 0;
        while i < len && defs[i].unit_type_id < id
            invariant
                len == defs@.len(),
                views(defs@) == old_entries,
                ids_increasing(old_entries),
                i <= len,
                forall|j: int| 0 <= j < i ==> old_entries[j].unit_type_id < id,
            decreases len - i,
        {
            i += 1;
        }
        if i < len && defs[i].unit_type_id == id {
            defs.set(i, def);
            proof {
                let ne = views(defs@);
                assert(ne =~= old_entries.update(i as int, d));
                assert forall|a: int, b: int| 0 <= a < b < ne.len() implies ne[a].unit_type_id < ne[b].unit_type_id by {
                    assert(ne[a].unit_type_id == old_entries[a].unit_type_id);
                    assert(ne[b].unit_type_id == old_entries[b].unit_type_id);
                }
                assert forall|x: u32| #[trigger] def_of(ne, x) == if x == id { Some(d) } else { def_of(old_entries, x) } by {
                    if x == id {
                        assert(ne[i as int].unit_type_id == id);
                        assert(has_def(ne, id));
                        let k = choose|k: int| 0 <= k < ne.len() && ne[k].unit_type_id == id;
                        assert(k == i);
                    } else {
                        if has_def(old_entries, x) {
                            let k = choose|k: int| 0 <= k < old_entries.len() && old_entries[k].unit_type_id == x;
                            assert(ne[k] == old_entries[k]);
                            assert(has_def(ne, x));
                            let k2 = choose|k2: int| 0 <= k2 < ne.len() && ne[k2].unit_type_id == x;
                            assert(k2 == k);
                        }
                        if has_def(ne, x) {
                            let k2 = choose|k2: int| 0 <= k2 < ne.len() && ne[k2].unit_type_id == x;
                            assert(old_entries[k2].unit_type_id == x);
                        }
                    }
                }
            }
        } else {
            defs.insert(i, def);
            proof {
                let ne = views(defs@);
                assert(ne =~= old_entries.insert(i as int, d));
                assert forall|a: int, b: int| 0 <= a < b < ne.len() implies ne[a].unit_type_id < ne[b].unit_type_id by {
                    if b < i {
                    } else if b == i {
                    } else if a < i {
                        assert(ne[b] == old_entries[b - 1]);
                    } else if a == i {
                        assert(ne[b] == old_entries[b - 1]);
                        assert(old_entries[i as int].unit_type_id >= id);
                        if i as int != b - 1 {
                            assert(old_entries[i as int].unit_type_id < old_entries[b - 1].unit_type_id);
                        }
                    } else {
                        assert(ne[a] == old_entries[a - 1]);
                        assert(ne[b] == old_entries[b - 1]);
                    }
                }
                assert forall|x: u32| #[trigger] def_of(ne, x) == if x == id { Some(d) } else { def_of(old_entries, x) } by {
                    if x == id {
                        assert(ne[i as int].unit_type_id == id);
                        assert(has_def(ne, id));
                        let k = choose|k: int| 0 <= k < ne.len() && ne[k].unit_type_id == id;
                        if k != i {
                            if k < i {
                                assert(ne[k].unit_type_id < ne[i as int].unit_type_id);
                            } else {
                                assert(ne[i as int].unit_type_id < ne[k].unit_type_id);
                            }
                        }
                    } else {
                        if has_def(old_entries, x) {
                            let k = choose|k: int| 0 <= k < old_entries.len() && old_entries[k].unit_type_id == x;
                            let kk = if k < i { k } else { k + 1 };
                            assert(ne[kk] == old_entries[k]);
                            assert(has_def(ne, x));
                            let k2 = choose|k2: int| 0 <= k2 < ne.len() && ne[k2].unit_type_id == x;
                            if k2 != kk {
                                if k2 < kk {
                                    assert(ne[k2].unit_type_id < ne[kk].unit_type_id);
                                } else {
                                    assert(ne[kk].unit_type_id < ne[k2].unit_type_id);
                                }
                            }
                        }
                        if has_def(ne, x) {
                            let k2 = choose|k2: int| 0 <= k2 < ne.len() && ne[k2].unit_type_id == x;
                            assert(k2 != i);
                            if k2 < i {
                                assert(old_entries[k2].unit_type_id == x);
                            } else {
                                assert(old_entries[k2 - 1].unit_type_id == x);
                            }
                        }
                    }
                }
            }
        }
        self.defs = defs;
    }

    /// Whether `id` has a definition of kind `role`.
    pub open spec fn is_role(&self, id: u32, role: BuildRole) -> bool {
        self.lookup(id) is Some && has_role(self.lookup(id)->0, role)
    }

    /// The ids of `ids`, in order, that have a definition of kind `role`.
    pub open spec fn with_role(&self, ids: Seq<u32>, role: BuildRole) -> Seq<u32> {
        ids.filter(|id: u32| self.is_role(id, role))
    }

    /// What the definition of `builder_type_id` can build that is of kind
    /// `role`, in menu order (nothing if the builder is unknown).
    pub open spec fn buildable(&self, builder_type_id: u32, role: BuildRole) -> Seq<u32> {
        match self.lookup(builder_type_id) {
            Some(b) => self.with_role(b.can_build, role),
            None => Seq::empty(),
        }
    }

    /// The unit types of kind `role` that `builder_type_id` can build, in
    /// menu order; empty if the builder is not registered.
    pub fn buildable_with_role(&self, builder_type_id: u32, role: BuildRole) -> (r: Vec<u32>)
        ensures
            r@ == self.buildable(builder_type_id, role),
    {
        let mut r: Vec<u32> = Vec::new();
        match self.get(builder_type_id) {
            None => {
                assert(r@ =~= self.buildable(builder_type_id, role));
                r
            },
            Some(b) => {
                let ghost ids = b.can_build@;
                let len = b.can_build.len();
                let mut i: usize = 0;
                while i < len
                    invariant
                        len == ids.len(),
                        ids == b.can_build@,
                        i <= len,
                        r@ == self.with_role(ids.take(i as int), role),
                    decreases len - i,
                {
                    let id = b.can_build[i];
                    proof {
                        assert(ids.take(i as int + 1).drop_last() =~= ids.take(i as int));
                        reveal_with_fuel(Seq::filter, 1);
                    }
                    match self.get(id) {
                        Some(d) => {
                            if matches_role(d, role) {
                                r.push(id);
                            }
                        },
                        None => {},
                    }
                    i += 1;
                }
                assert(ids.take(len as int) =~= ids);
                r
            },
        }
    }

    /// The first unit type of kind `role` that `builder_type_id` can build,
    /// or `None` if there is none or the builder is not registered.
    pub fn find_buildable(&self, builder_type_id: u32, role: BuildRole) -> (r: Option<u32>)
        ensures
            r == (if self.buildable(builder_type_id, role).len() > 0 {
                Some(self.buildable(builder_type_id, role)[0])
            } else {
                None
            }),
    {
        let all = self.buildable_with_role(builder_type_id, role);
        if all.len() > 0 {
            Some(all[0])
        } else {
            None
        }
    }

    /// The unit type id of the first definition, in id order, whose
    /// lower-cased name equals `name`.
    pub fn find_by_name(&self, name: &str) -> (r: Option<u32>)
        ensures
            match r {
                Some(id) => exists|i: int|
                    0 <= i < self.entries().len() && self.entries()[i].unit_type_id == id
                        && lowercase(self.entries()[i].name) == name@ && forall|j: int|
                        0 <= j < i ==> lowercase(#[trigger] self.entries()[j].name) != name@,
                None => forall|j: int|
                    0 <= j < self.entries().len() ==> lowercase(#[trigger] self.entries()[j].name)
                        != name@,
            },
    {
        let wanted = String::from_str(name);
        let len = self.defs.len();
        let mut i: usize = 0;
        while i < len
            invariant
                len == self.entries().len(),
                wanted@ == name@,
                i <= len,
                forall|j: int| 0 <= j < i ==> lowercase(#[trigger] self.entries()[j].name) != name@,
            decreases len - i,
        {
            let lower = to_lowercase(self.defs[i].name.as_str());
            assert(self.entries()[i as int] == self.defs@[i as int]@);
            if lower == wanted {
                assert(lowercase(self.entries()[i as int].name) == name@);
                return Some(self.defs[i].unit_type_id);
            }
            i += 1;
        }
        None
    }

    /// The definition of `unit_type_id`, if registered.
    pub fn get(&self, unit_type_id: u32) -> (r: Option<&UnitDef>)
        ensures
            match r {
                Some(d) => self.lookup(unit_type_id) == Some(d@),
                None => self.lookup(unit_type_id) is None,
            },
    {
        proof {
            use_type_invariant(self);
        }
        let len = self.defs.len();
        let mut i: usize = 0;
        while i < len
            invariant
                self.wf(),
                len == self.defs@.len(),
                i <= len,
                forall|j: int| 0 <= j < i ==> self.entries()[j].unit_type_id != unit_type_id,
            decreases len - i,
        {
            if self.defs[i].unit_type_id == unit_type_id {
                proof {
                    self.lemma_lookup_at(i as int);
                }
                return Some(&self.defs[i]);
            }
            i += 1;
        }
        None
    }
}

/// The kinds are exclusive where the game needs them to be: a factory is
/// neither a solar nor an extractor, and a combat unit is none of the
/// three building kinds.
pub proof fn lemma_roles_disjoint(d: UnitDefView)
    ensures
        has_role(d, BuildRole::Factory) ==> !has_role(d, BuildRole::EnergyBuilding) && !has_role(
            d,
            BuildRole::MetalExtractor,
        ),
        has_role(d, BuildRole::Combat) ==> !has_role(d, BuildRole::EnergyBuilding) && !has_role(
            d,
            BuildRole::MetalExtractor,
        ) && !d.is_building,
        has_role(d, BuildRole::EnergyBuilding) ==> d.is_building && d.produces_energy,
        has_role(d, BuildRole::MetalExtractor) ==> d.is_building && d.produces_metal,
        has_role(d, BuildRole::Any),
{
}

/// What a builder can build of a kind: exactly its build options, in menu
/// order, that are registered with that kind.
pub proof fn lemma_buildable_rules(registry: UnitDefRegistry, builder: u32, role: BuildRole)
    ensures
        registry.lookup(builder) is None ==> registry.buildable(builder, role).len() == 0,
        forall|k: int| #![trigger registry.buildable(builder, role)[k]]
            0 <= k < registry.buildable(builder, role).len() ==> registry.lookup(builder) is Some
                && registry.lookup(builder)->0.can_build.contains(registry.buildable(builder, role)[k])
                && registry.lookup(registry.buildable(builder, role)[k]) is Some && has_role(
                registry.lookup(registry.buildable(builder, role)[k])->0,
                role,
            ),
        registry.lookup(builder) matches Some(b) ==> forall|i: int| #![trigger b.can_build[i]]
            0 <= i < b.can_build.len() && registry.is_role(b.can_build[i], role) ==> registry.buildable(
                builder,
                role,
            ).contains(b.can_build[i]),
{
    broadcast use vstd::seq_lib::group_filter_ensures;
    match registry.lookup(builder) {
        Some(b) => {
            let pred = |id: u32| registry.is_role(id, role);
            let out = b.can_build.filter(pred);
            assert(registry.buildable(builder, role) == out);
            assert forall|k: int| #![trigger out[k]] 0 <= k < out.len() implies b.can_build.contains(out[k])
                && registry.is_role(out[k], role) by {
                assert(pred(out[k]));
                assert(out.contains(out[k]));
                b.can_build.lemma_filter_contains_rev(pred, out[k]);
            }
            assert forall|i: int| #![trigger b.can_build[i]]
                0 <= i < b.can_build.len() && registry.is_role(b.can_build[i], role) implies out.contains(b.can_build[i]) by {
                b.can_build.lemma_filter_contains(pred, i);
            }
        },
        None => {},
    }
}

} // verus!
