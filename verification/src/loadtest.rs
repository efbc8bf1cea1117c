//! Load-test waves: periodically spawn batches of armed units for both
//! teams and send them toward the centre of the map to fight. The world
//! itself stays with the caller, which spawns what a wave lists.

use vstd::prelude::*;

verus! {

/// A unit to spawn at integer map coordinates for a team.
#[derive(Clone, Copy, Debug, PartialEq, Eq, Structural)]
pub struct SpawnOrder {
    pub x: i32,
    pub z: i32,
    pub team: u8,
}

/// What one load-test tick asks the caller to do.
pub struct Wave {
    /// Weapon that every spawned unit carries.
    pub weapon_id: u32,
    /// The weapon is new: register it (it receives `weapon_id`) first.
    pub register_weapon: bool,
    /// Units to spawn, alternating team 0 and team 1.
    pub spawns: Vec<SpawnOrder>,
}

/// Units in the wave that starts when `total` of `max` units exist.
pub open spec fn wave_batch(units_per_wave: usize, max_units: usize, total: usize) -> int {
    if units_per_wave <= max_units - total {
        units_per_wave as int
    } else {
        max_units - total
    }
}

/// The `k`-th spawn of a wave whose first unit has index `base`: even
/// entries are team 0 on the left, odd entries team 1 on the right, in rows
/// of twenty units 16 apart.
pub open spec fn wave_spawn(base: int, k: int) -> SpawnOrder {
    let idx = base + k / 2;
    let row = idx / 20;
    let col = idx % 20;
    if k % 2 == 0 {
        SpawnOrder { x: (300 + col * 16) as i32, z: (800 + row * 16) as i32, team: 0 }
    } else {
        SpawnOrder { x: (1700 - col * 16) as i32, z: (800 + row * 16) as i32, team: 1 }
    }
}

/// Where units of `team` are sent: past the centre, toward the other side.
pub open spec fn attack_move_point(team: u8) -> (i32, i32) {
    if team == 0 {
        (1200, 1024)
    } else {
        (800, 1024)
    }
}

/// Load-test state.
pub struct LoadtestState {
    pub enabled: bool,
    pub weapon_id: Option<u32>,
    pub units_per_wave: usize,
    pub wave_interval: u64,
    pub total_spawned: usize,
    pub max_units: usize,
}

impl LoadtestState {
    /// Disabled load test with the stock settings: waves of 50 every 120
    /// frames, at most 2000 units.
    pub fn default() -> (r: Self)
        ensures
            !r.enabled,
            r.weapon_id is None,
            r.units_per_wave == 50,
            r.wave_interval == 120,
            r.total_spawned == 0,
            r.max_units == 2000,
    {
        LoadtestState {
            enabled: false,
            weapon_id: None,
            units_per_wave: 50,
            wave_interval: 120,
            total_spawned: 0,
            max_units: 2000,
        }
    }

    /// Enabled load test with the given wave size and unit cap; the other
    /// settings are the stock ones.
    pub fn new(units_per_wave: usize, max_units: usize) -> (r: Self)
        ensures
            r.enabled,
            r.weapon_id is None,
            r.units_per_wave == units_per_wave,
            r.wave_interval == 120,
            r.total_spawned == 0,
            r.max_units == max_units,
    {
        let d = Self::default();
        LoadtestState { enabled: true, units_per_wave, max_units, ..d }
    }

    /// The test is running and has room for more units.
    pub open spec fn active(&self) -> bool {
        self.enabled && self.total_spawned < self.max_units
    }

    /// Run one load-test tick at `frame` (after the game tick).
    /// `registered_weapons` is the number of weapons registered so far: a
    /// weapon registered now receives that number as its id.
    pub fn tick(&mut self, frame: u64, registered_weapons: usize) -> (r: Option<Wave>)
        requires
            old(self).active() ==> old(self).wave_interval > 0,
            old(self).active() && frame % old(self).wave_interval == 0 ==> old(self).total_spawned
                + wave_batch(old(self).units_per_wave, old(self).max_units, old(self).total_spawned)
                / 2 <= i32::MAX,
        ensures
            ({
                let s = *old(self);
                if !s.active() || frame % s.wave_interval != 0 {
                    r is None && *final(self) == s
                } else {
                    let batch = wave_batch(s.units_per_wave, s.max_units, s.total_spawned);
                    let id = match s.weapon_id {
                        Some(w) => w,
                        None => registered_weapons as u32,
                    };
                    &&& r is Some
                    &&& r->0.weapon_id == id
                    &&& r->0.register_weapon == (s.weapon_id is None)
                    &&& r->0.spawns@.len() == batch
                    &&& forall|k: int|
                        0 <= k < r->0.spawns@.len() ==> #[trigger] r->0.spawns@[k] == wave_spawn(
                            s.total_spawned as int,
                            k,
                        )
                    &&& final(self).weapon_id == Some(id)
                    &&& final(self).total_spawned == s.total_spawned + batch
                    &&& final(self).enabled == s.enabled
                    &&& final(self).units_per_wave == s.units_per_wave
                    &&& final(self).wave_interval == s.wave_interval
                    &&& final(self).max_units == s.max_units
                }
            }),
    {
        if !self.enabled || self.total_spawned >= self.max_units {
            return None;
        }
        if frame % self.wave_interval != 0 {
            return None;
        }
        let register_weapon = self.weapon_id.is_none();
        let weapon_id = match self.weapon_id {
            Some(w) => w,
            None => registered_weapons as u32,
        };
        self.weapon_id = Some(weapon_id);

        let room = self.max_units - self.total_spawned;
        let batch = if self.units_per_wave <= room {
            self.units_per_wave
        } else {
            room
        };
        let base = self.total_spawned;
        let mut spawns: Vec<SpawnOrder> = Vec::new();
        let mut k: usize = 0;
        while k < batch
            invariant
                k <= batch,
                base + batch / 2 <= i32::MAX,
                spawns@.len() == k,
                forall|j: int| 0 <= j < spawns@.len() ==> #[trigger] spawns@[j] == wave_spawn(base as int, j),
            decreases batch - k,
        {
            let idx = (base + k / 2) as i32;
            let row = idx / 20;
            let col = idx % 20;
            let z = 800 + row * 16;
            if k % 2 == 0 {
                spawns.push(SpawnOrder { x: 300 + col * 16, z, team: 0 });
            } else {
                spawns.push(SpawnOrder { x: 1700 - col * 16, z, team: 1 });
            }
            assert(spawns@[k as int] == wave_spawn(base as int, k as int));
            k += 1;
        }
        self.total_spawned = self.total_spawned + batch;
        Some(Wave { weapon_id, register_weapon, spawns })
    }
}

/// A wave never takes the number of spawned units past the cap.
pub proof fn lemma_wave_respects_cap(units_per_wave: usize, max_units: usize, total: usize)
    requires
        total < max_units,
    ensures
        total + wave_batch(units_per_wave, max_units, total) <= max_units,
        wave_batch(units_per_wave, max_units, total) <= units_per_wave,
        wave_batch(units_per_wave, max_units, total) == units_per_wave || total + wave_batch(
            units_per_wave,
            max_units,
            total,
        ) == max_units,
{
}

/// Team 0 spawns on the left (x from 300 to 604) and team 1 on the right
/// (x from 1396 to 1700), alternating; each wave fills rows of twenty
/// units 16 apart, starting at z = 800.
pub proof fn lemma_wave_sides(base: int, k: int)
    requires
        base >= 0,
        k >= 0,
        base + k / 2 <= i32::MAX,
    ensures
        wave_spawn(base, k).team == (if k % 2 == 0 { 0u8 } else { 1u8 }),
        wave_spawn(base, k).team == 0 ==> 300 <= wave_spawn(base, k).x <= 604,
        wave_spawn(base, k).team == 1 ==> 1396 <= wave_spawn(base, k).x <= 1700,
        wave_spawn(base, k).z == 800 + 16 * ((base + k / 2) / 20),
{
    let idx = base + k / 2;
    assert(0 <= idx % 20 < 20);
    assert(idx / 20 <= i32::MAX / 20);
}

/// Waves are fair: spawn pairs alternate team 0 and team 1, the two units
/// of a pair stand in the same row, mirrored about x = 1000.
pub proof fn lemma_wave_pairs_mirrored(base: int, j: int)
    requires
        base >= 0,
        j >= 0,
        base + j <= i32::MAX,
    ensures
        wave_spawn(base, 2 * j).team == 0,
        wave_spawn(base, 2 * j + 1).team == 1,
        wave_spawn(base, 2 * j).z == wave_spawn(base, 2 * j + 1).z,
        wave_spawn(base, 2 * j).x + wave_spawn(base, 2 * j + 1).x == 2000,
{
    assert((2 * j) / 2 == j);
    assert((2 * j + 1) / 2 == j);
    assert((2 * j) % 2 == 0);
    assert((2 * j + 1) % 2 == 1);
    let idx = base + j;
    assert(0 <= idx % 20 < 20);
}

/// Where the load test sends the idle units of `team`.
pub fn attack_move_target(team: u8) -> (r: (i32, i32))
    ensures
        r == attack_move_point(team),
{
    if team == 0 {
        (1200, 1024)
    } else {
        (800, 1024)
    }
}

/// `c` is the ceiling of the square root of `n`.
pub open spec fn is_ceil_sqrt(n: int, c: int) -> bool {
    &&& c >= 0
    &&& c * c >= n
    &&& (c == 0 || (c - 1) * (c - 1) < n)
}

/// Ceiling of the square root of `n`.
pub fn ceil_sqrt(n: usize) -> (r: usize)
    requires
        n <= i32::MAX,
    ensures
        is_ceil_sqrt(n as int, r as int),
        r <= 46341,
{
    let mut c: usize = 0;
    loop
        invariant
            c <= 46341,
            c == 0 || (c - 1) * (c - 1) < n,
            n <= i32::MAX,
        ensures
            c <= 46341,
            c * c >= n,
            c == 0 || (c - 1) * (c - 1) < n,
        decreases 46341 - c,
    {
        assert(c * c <= 46341 * 46341) by (nonlinear_arith)
            requires c <= 46341;
        if c * c >= n {
            break;
        }
        proof {
            if c >= 46341 {
                assert(c * c >= 46341 * 46341) by (nonlinear_arith)
                    requires c >= 46341;
            }
        }
        c = c + 1;
    }
    c
}

/// The `i`-th unit pair of the headless client's opening grid: team 0 on
/// the left and team 1 on the right, `cols` units per row, 20 apart.
pub open spec fn grid_spawn(cols: int, k: int) -> SpawnOrder {
    let i = k / 2;
    let row = i / cols;
    let col = i % cols;
    if k % 2 == 0 {
        SpawnOrder { x: (100 + col * 20) as i32, z: (100 + row * 20) as i32, team: 0 }
    } else {
        SpawnOrder { x: (600 + col * 20) as i32, z: (100 + row * 20) as i32, team: 1 }
    }
}

/// The headless client's opening armies: `units_per_team` units per team in
/// a square grid (as many columns as the ceiling of the square root),
/// alternating team 0 and team 1.
pub fn headless_spawn_grid(units_per_team: usize) -> (r: Vec<SpawnOrder>)
    requires
        units_per_team <= i32::MAX,
    ensures
        r@.len() == 2 * units_per_team,
        forall|cols: int| #![trigger is_ceil_sqrt(units_per_team as int, cols)]
            is_ceil_sqrt(units_per_team as int, cols) ==> forall|k: int|
                0 <= k < r@.len() ==> #[trigger] r@[k] == grid_spawn(cols, k),
{
    let cols = ceil_sqrt(units_per_team);
    let mut r: Vec<SpawnOrder> = Vec::new();
    let mut i: usize = 0;
    while i < units_per_team
        invariant
            i <= units_per_team,
            units_per_team <= i32::MAX,
            is_ceil_sqrt(units_per_team as int, cols as int),
            cols <= 46341,
            r@.len() == 2 * i,
            forall|k: int| 0 <= k < r@.len() ==> #[trigger] r@[k] == grid_spawn(cols as int, k),
        decreases units_per_team - i,
    {
        assert(cols > 0);
        let row = i / cols;
        let col = i % cols;
        proof {
            assert(row * cols <= i) by (nonlinear_arith)
                requires row == i / cols, cols > 0;
            assert(row <= 46341) by (nonlinear_arith)
                requires row * cols <= i, cols * cols >= i + 1, cols > 0, cols <= 46341, row >= 0;
        }
        let x0 = (100 + col * 20) as i32;
        let x1 = (600 + col * 20) as i32;
        let z = (100 + row * 20) as i32;
        r.push(SpawnOrder { x: x0, z, team: 0 });
        r.push(SpawnOrder { x: x1, z, team: 1 });
        proof {
            let k0 = 2 * i as int;
            assert(k0 / 2 == i as int);
            assert((k0 + 1) / 2 == i as int);
            assert(k0 % 2 == 0);
            assert((k0 + 1) % 2 == 1);
            assert(r@[k0] == grid_spawn(cols as int, k0));
            assert(r@[k0 + 1] == grid_spawn(cols as int, k0 + 1));
        }
        i += 1;
    }
    proof {
        assert forall|c2: int| #![trigger is_ceil_sqrt(units_per_team as int, c2)]
            is_ceil_sqrt(units_per_team as int, c2) implies c2 == cols as int by {
            lemma_ceil_sqrt_unique(units_per_team as int, c2, cols as int);
        }
    }
    r
}

proof fn lemma_ceil_sqrt_unique(n: int, a: int, b: int)
    requires
        is_ceil_sqrt(n, a),
        is_ceil_sqrt(n, b),
    ensures
        a == b,
{
    if a < b {
        assert((b - 1) * (b - 1) >= a * a) by (nonlinear_arith)
            requires a <= b - 1, a >= 0;
    } else if b < a {
        assert((a - 1) * (a - 1) >= b * b) by (nonlinear_arith)
            requires b <= a - 1, b >= 0;
    }
}

/// Where the headless client sends the units of `team`.
pub fn headless_attack_target(team: u8) -> (r: (i32, i32))
    ensures
        r == (if team == 0 { (500i32, 400i32) } else { (200i32, 400i32) }),
{
    if team == 0 {
        (500, 400)
    } else {
        (200, 400)
    }
}

} // verus!
