//! Game setup decisions: world initialisation options, grid and fog sizes
//! from the map manifest, weapon id assignment, and the commanders' unit
//! types. Loading files and spawning entities stay with the caller.

use vstd::prelude::*;

use crate::units::{lowercase, UnitDefRegistry};

verus! {

/// Options for world initialisation.
pub struct InitOptions {
    /// Enable fog of war (on by default).
    pub fog_of_war: bool,
}

impl Default for InitOptions {
    fn default() -> (r: Self)
        ensures
            r.fog_of_war,
    {
        InitOptions { fog_of_war: true }
    }
}

/// Map size as the grids need it: width and height in manifest cells, and
/// the cell size in world units, truncated to an integer.
#[derive(Clone, Copy, Debug, PartialEq, Eq, Structural)]
pub struct MapExtent {
    pub width: u32,
    pub height: u32,
    pub cell_size: u32,
}

/// Sizes of the simulation grids.
#[derive(Clone, Copy, Debug, PartialEq, Eq, Structural)]
pub struct GridDims {
    /// Spatial-hash grid (16 world units per cell, at least 64).
    pub spatial_w: usize,
    pub spatial_h: usize,
    /// Terrain grid (one cell per manifest cell).
    pub terrain_w: usize,
    pub terrain_h: usize,
}

/// The larger of `a` and `b`.
pub open spec fn max_int(a: int, b: int) -> int {
    if a >= b {
        a
    } else {
        b
    }
}

/// Grid sizes for a map: the spatial grid covers the world extent in
/// cells of 16 units, at least 64 a side; the terrain grid has one cell per
/// manifest cell. Without a manifest, 64 by 64 for both.
pub open spec fn grid_dims_spec(extent: Option<MapExtent>) -> GridDims {
    match extent {
        Some(e) => GridDims {
            spatial_w: max_int((e.width * e.cell_size) / 16, 64) as usize,
            spatial_h: max_int((e.height * e.cell_size) / 16, 64) as usize,
            terrain_w: e.width as usize,
            terrain_h: e.height as usize,
        },
        None => GridDims { spatial_w: 64, spatial_h: 64, terrain_w: 64, terrain_h: 64 },
    }
}

/// Grid sizes for a map (see [`grid_dims_spec`]).
pub fn grid_dims(extent: Option<MapExtent>) -> (r: GridDims)
    requires
        extent matches Some(e) ==> e.width * e.cell_size <= usize::MAX && e.height * e.cell_size
            <= usize::MAX,
    ensures
        r == grid_dims_spec(extent),
{
    match extent {
        Some(e) => {
            let world_w = e.width as usize * e.cell_size as usize;
            let world_h = e.height as usize * e.cell_size as usize;
            let sw = if world_w / 16 >= 64 { world_w / 16 } else { 64 };
            let sh = if world_h / 16 >= 64 { world_h / 16 } else { 64 };
            GridDims { spatial_w: sw, spatial_h: sh, terrain_w: e.width as usize, terrain_h: e.height as usize }
        },
        None => GridDims { spatial_w: 64, spatial_h: 64, terrain_w: 64, terrain_h: 64 },
    }
}

/// The spatial grid spans the map's world extent (width or height times the
/// cell size) in cells of 16 world units, and is at least 64 cells a side:
/// each side is the larger of the two. The terrain grid has one cell per
/// manifest cell. Without a map both grids are 64 by 64.
pub proof fn lemma_grid_covers_map(extent: Option<MapExtent>)
    requires
        extent matches Some(e) ==> e.width * e.cell_size <= usize::MAX && e.height * e.cell_size
            <= usize::MAX,
    ensures
        extent matches Some(e) ==> {
            let d = grid_dims_spec(extent);
            let cells_w = (e.width * e.cell_size) / 16;
            let cells_h = (e.height * e.cell_size) / 16;
            &&& d.spatial_w >= cells_w && d.spatial_w >= 64
            &&& (d.spatial_w == cells_w || d.spatial_w == 64)
            &&& d.spatial_h >= cells_h && d.spatial_h >= 64
            &&& (d.spatial_h == cells_h || d.spatial_h == 64)
            &&& 16 * d.spatial_w >= e.width * e.cell_size - 15
            &&& 16 * d.spatial_h >= e.height * e.cell_size - 15
            &&& d.terrain_w == e.width && d.terrain_h == e.height
        },
        extent is None ==> grid_dims_spec(extent) == (GridDims { spatial_w: 64, spatial_h: 64, terrain_w: 64, terrain_h: 64 }),
{
    match extent {
        Some(e) => {
            let w = e.width * e.cell_size;
            let h = e.height * e.cell_size;
            assert(w >= 0 && h >= 0) by (nonlinear_arith)
                requires w == e.width * e.cell_size, h == e.height * e.cell_size;
        },
        None => {},
    }
}

/// The fog of war covers the map's world extent and is at least 1024 a
/// side: each side is the larger of the two; 1024 by 1024 without a map.
pub proof fn lemma_fog_covers_map(extent: Option<MapExtent>)
    requires
        extent matches Some(e) ==> e.width * e.cell_size <= u32::MAX && e.height * e.cell_size
            <= u32::MAX,
    ensures
        extent matches Some(e) ==> {
            let (w, h) = fog_dims_spec(extent);
            &&& w >= e.width * e.cell_size && w >= 1024
            &&& (w == e.width * e.cell_size || w == 1024)
            &&& h >= e.height * e.cell_size && h >= 1024
            &&& (h == e.height * e.cell_size || h == 1024)
        },
        extent is None ==> fog_dims_spec(extent) == (1024u32, 1024u32),
{
    match extent {
        Some(e) => {
            let w = e.width * e.cell_size;
            let h = e.height * e.cell_size;
            assert(w >= 0 && h >= 0) by (nonlinear_arith)
                requires w == e.width * e.cell_size, h == e.height * e.cell_size;
        },
        None => {},
    }
}

/// Fog-of-war size: the map's world extent, at least 1024 a side; 1024 by
/// 1024 without a manifest.
pub open spec fn fog_dims_spec(extent: Option<MapExtent>) -> (u32, u32) {
    match extent {
        Some(e) => (
            max_int(e.width * e.cell_size, 1024) as u32,
            max_int(e.height * e.cell_size, 1024) as u32,
        ),
        None => (1024, 1024),
    }
}

/// Fog-of-war size for a map (see [`fog_dims_spec`]).
pub fn fog_dims(extent: Option<MapExtent>) -> (r: (u32, u32))
    requires
        extent matches Some(e) ==> e.width * e.cell_size <= u32::MAX && e.height * e.cell_size
            <= u32::MAX,
    ensures
        r == fog_dims_spec(extent),
{
    match extent {
        Some(e) => {
            let w = e.width * e.cell_size;
            let h = e.height * e.cell_size;
            (if w >= 1024 { w } else { 1024 }, if h >= 1024 { h } else { 1024 })
        },
        None => (1024, 1024),
    }
}

/// Build time of a unit blueprint: the definition's, or 60 frames when it
/// gives none.
pub fn blueprint_build_time(build_time: u32) -> (r: u32)
    ensures
        r == (if build_time > 0 { build_time } else { 60 }),
{
    if build_time > 0 {
        build_time
    } else {
        60
    }
}

/// Weapon ids of the units, in order, when the `k`-th unit brings
/// `counts[k]` weapons and the first new weapon gets id `next`: each unit
/// receives the next ids in turn, each truncated to 32 bits.
pub open spec fn weapon_ids_from(next: int, counts: Seq<usize>) -> Seq<Seq<u32>>
    decreases counts.len(),
{
    if counts.len() == 0 {
        Seq::empty()
    } else {
        seq![Seq::new(counts[0] as nat, |j: int| (next + j) as u32)] + weapon_ids_from(
            next + counts[0],
            counts.skip(1),
        )
    }
}

/// Assign weapon ids: the registry already holds `registered` weapons,
/// and the `k`-th unit brings `counts[k]` weapons, which are appended in
/// unit order. Returns the ids of each unit's weapons.
pub fn assign_weapon_ids(registered: usize, counts: &Vec<usize>) -> (r: Vec<Vec<u32>>)
    requires
        registered + counts@.fold_left(0int, |acc: int, c: usize| acc + c) <= usize::MAX,
    ensures
        r@.len() == counts@.len(),
        forall|k: int| 0 <= k < r@.len() ==> #[trigger] r@[k]@ == weapon_ids_from(registered as int, counts@)[k],
{
    let ghost cs = counts@;
    let mut result: Vec<Vec<u32>> = Vec::new();
    let mut next: usize = registered;
    let len = counts.len();
    let mut k: usize = 0;
    proof {
        lemma_fold_prefix_bound(cs, 0);
        assert(cs.skip(0) =~= cs);
        lemma_weapon_ids_len(registered as int, cs);
        assert(cs.take(0) =~= Seq::<usize>::empty());
    }
    while k < len
        invariant
            len == cs.len(),
            cs == counts@,
            k <= len,
            next as int == registered as int + cs.take(k as int).fold_left(0int, |acc: int, c: usize| acc + c),
            registered + cs.fold_left(0int, |acc: int, c: usize| acc + c) <= usize::MAX,
            result@.len() == k,
            forall|i: int| 0 <= i < k ==> #[trigger] result@[i]@ == weapon_ids_from(registered as int, cs)[i],
            weapon_ids_from(registered as int, cs).len() == cs.len(),
            forall|i: int| 0 <= i < cs.len() - k ==> #[trigger] weapon_ids_from(next as int, cs.skip(k as int))[i]
                == weapon_ids_from(registered as int, cs)[k + i],
            weapon_ids_from(next as int, cs.skip(k as int)).len() == cs.len() - k,
        decreases len - k,
    {
        let n = counts[k];
        proof {
            lemma_fold_prefix_bound(cs, k as int + 1);
            assert(cs.take(k as int + 1).drop_last() =~= cs.take(k as int));
            assert(cs.take(k as int + 1).last() == n);
        }
        let mut ids: Vec<u32> = Vec::new();
        let mut j: usize = 0;
        while j < n
            invariant
                j <= n,
                next + n <= usize::MAX,
                ids@ == Seq::new(j as nat, |t: int| (next + t) as u32),
            decreases n - j,
        {
            ids.push(#[verifier::truncate] ((next + j) as u32));
            assert(ids@ =~= Seq::new((j + 1) as nat, |t: int| (next + t) as u32));
            j += 1;
        }
        proof {
            let rest = cs.skip(k as int);
            assert(rest[0] == n);
            assert(rest.skip(1) =~= cs.skip(k as int + 1));
            lemma_weapon_ids_len((next + n) as int, cs.skip(k as int + 1));
            assert(weapon_ids_from(next as int, rest)[0] == ids@);
            assert forall|i: int| 0 <= i < cs.len() - (k + 1) implies #[trigger] weapon_ids_from(
                (next + n) as int,
                cs.skip(k as int + 1),
            )[i] == weapon_ids_from(registered as int, cs)[k + 1 + i] by {
                assert(weapon_ids_from(next as int, rest)[i + 1] == weapon_ids_from(
                    (next + n) as int,
                    cs.skip(k as int + 1),
                )[i]);
            }
        }
        result.push(ids);
        next = next + n;
        k += 1;
    }
    result
}

/// Number of weapons that units with weapon counts `counts` bring.
pub open spec fn total_weapons(counts: Seq<usize>) -> int {
    counts.fold_left(0int, |acc: int, c: usize| acc + c)
}

proof fn lemma_total_from(cs: Seq<usize>, a: int)
    ensures
        cs.fold_left(a, |acc: int, c: usize| acc + c) == a + total_weapons(cs),
    decreases cs.len(),
{
    if cs.len() > 0 {
        lemma_total_from(cs.drop_last(), a);
    }
}

/// Weapon ids are handed out consecutively in unit order: unit `k` gets
/// `counts[k]` ids, the `j`-th of which comes right after all the ids of
/// the units before it, counting from the first new id `next`.
pub proof fn lemma_weapon_ids_consecutive(next: int, counts: Seq<usize>, k: int, j: int)
    requires
        0 <= k < counts.len(),
    ensures
        weapon_ids_from(next, counts)[k].len() == counts[k],
        0 <= j < counts[k] ==> weapon_ids_from(next, counts)[k][j] == (next + total_weapons(counts.take(k)) + j) as u32,
    decreases counts.len(),
{
    let rest = counts.skip(1);
    lemma_weapon_ids_len(next + counts[0], rest);
    if k == 0 {
        assert(counts.take(0) =~= Seq::<usize>::empty());
    } else {
        lemma_weapon_ids_consecutive(next + counts[0], rest, k - 1, j);
        assert(rest[k - 1] == counts[k]);
        let pre = counts.take(k);
        assert(pre.subrange(0, 1) =~= seq![counts[0]]);
        assert(pre.subrange(1, pre.len() as int) =~= rest.take(k - 1));
        pre.lemma_fold_left_split(0int, |acc: int, c: usize| acc + c, 1);
        reveal_with_fuel(Seq::fold_left, 2);
        assert(seq![counts[0]].fold_left(0int, |acc: int, c: usize| acc + c) == counts[0]);
        lemma_total_from(rest.take(k - 1), counts[0] as int);
    }
}

proof fn lemma_fold_prefix_bound(cs: Seq<usize>, k: int)
    requires
        0 <= k <= cs.len(),
    ensures
        cs.take(k).fold_left(0int, |acc: int, c: usize| acc + c) <= cs.fold_left(
            0int,
            |acc: int, c: usize| acc + c,
        ),
        cs.take(k).fold_left(0int, |acc: int, c: usize| acc + c) >= 0,
    decreases cs.len(),
{
    if cs.len() == 0 {
        assert(cs.take(k) =~= cs);
    } else if k == cs.len() {
        assert(cs.take(k) =~= cs);
        lemma_fold_nonneg(cs);
    } else {
        assert(cs.drop_last().take(k) =~= cs.take(k));
        lemma_fold_prefix_bound(cs.drop_last(), k);
    }
}

proof fn lemma_weapon_ids_len(next: int, counts: Seq<usize>)
    ensures
        weapon_ids_from(next, counts).len() == counts.len(),
    decreases counts.len(),
{
    if counts.len() > 0 {
        lemma_weapon_ids_len(next + counts[0], counts.skip(1));
    }
}

proof fn lemma_fold_nonneg(cs: Seq<usize>)
    ensures
        cs.fold_left(0int, |acc: int, c: usize| acc + c) >= 0,
    decreases cs.len(),
{
    if cs.len() > 0 {
        lemma_fold_nonneg(cs.drop_last());
    }
}

/// The start position of `team`: the first of the map's start positions
/// (given by their teams, in manifest order) that belongs to the team.
pub fn start_position_of(start_teams: &Vec<u8>, team: u8) -> (r: Option<usize>)
    ensures
        match r {
            Some(i) => i < start_teams@.len() && start_teams@[i as int] == team && forall|j: int|
                0 <= j < i ==> start_teams@[j] != team,
            None => forall|j: int| 0 <= j < start_teams@.len() ==> start_teams@[j] != team,
        },
{
    let mut i: usize = 0;
    while i < start_teams.len()
        invariant
            i <= start_teams@.len(),
            forall|j: int| 0 <= j < i ==> start_teams@[j] != team,
        decreases start_teams@.len() - i,
    {
        if start_teams[i] == team {
            return Some(i);
        }
        i += 1;
    }
    None
}

/// Name of the commander definition of `team`.
pub open spec fn commander_name(team: u8) -> Seq<char> {
    if team == 0 {
        "armcom"@
    } else {
        "corcom"@
    }
}

/// Unit type of a commander that no definition describes.
pub const FALLBACK_COMMANDER_TYPE_ID: u32 = 9999;

/// Unit type of the commander of `team`: the first definition, in id
/// order, whose lower-cased name is the team's commander name, or
/// [`FALLBACK_COMMANDER_TYPE_ID`] when there is none.
pub fn commander_type_id(registry: &UnitDefRegistry, team: u8) -> (r: u32)
    ensures
        (exists|i: int|
            0 <= i < registry.entries().len() && registry.entries()[i].unit_type_id == r
                && lowercase(registry.entries()[i].name) == commander_name(team) && forall|j: int|
                0 <= j < i ==> lowercase(#[trigger] registry.entries()[j].name) != commander_name(team))
            || (r == FALLBACK_COMMANDER_TYPE_ID && forall|j: int|
            0 <= j < registry.entries().len() ==> lowercase(#[trigger] registry.entries()[j].name)
                != commander_name(team)),
{
    let name = if team == 0 {
        "armcom"
    } else {
        "corcom"
    };
    match registry.find_by_name(name) {
        Some(id) => id,
        None => FALLBACK_COMMANDER_TYPE_ID,
    }
}

} // verus!
