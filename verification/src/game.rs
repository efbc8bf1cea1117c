//! Game flow that the tick loop and the input handlers decide on: pausing,
//! placement mode, the end of the game and its reset. The simulated world
//! itself stays with the caller.

use vstd::prelude::*;

use crate::building::PlacementType;

verus! {

/// Result of a completed game.
#[derive(Clone, Debug)]
pub struct GameOver {
    /// Winning team (`None`: a draw).
    pub winner: Option<u8>,
    /// Human-readable reason.
    pub reason: String,
}

/// The outcome when the commanders' deaths are as given: both dead is a
/// draw, otherwise the team whose commander survives wins.
pub open spec fn game_over_outcome(t0_dead: bool, t1_dead: bool) -> Option<(Option<u8>, Seq<char>)> {
    if t0_dead && t1_dead {
        Some((None, "Both commanders destroyed"@))
    } else if t1_dead {
        Some((Some(0u8), "Enemy commander destroyed"@))
    } else if t0_dead {
        Some((Some(1u8), "Your commander was destroyed"@))
    } else {
        None
    }
}

/// Whether `go` is the outcome `o`.
pub open spec fn is_outcome(go: GameOver, o: (Option<u8>, Seq<char>)) -> bool {
    go.winner == o.0 && go.reason@ == o.1
}

/// The game-over record for the given commander deaths, if the game ends.
pub fn game_over_for(t0_dead: bool, t1_dead: bool) -> (r: Option<GameOver>)
    ensures
        r is None <==> game_over_outcome(t0_dead, t1_dead) is None,
        r matches Some(go) ==> is_outcome(go, game_over_outcome(t0_dead, t1_dead)->0),
{
    if t0_dead && t1_dead {
        Some(GameOver { winner: None, reason: String::from_str("Both commanders destroyed") })
    } else if t1_dead {
        Some(GameOver { winner: Some(0), reason: String::from_str("Enemy commander destroyed") })
    } else if t0_dead {
        Some(GameOver { winner: Some(1), reason: String::from_str("Your commander was destroyed") })
    } else {
        None
    }
}

/// The game ends exactly when a commander is dead; the winner is the team
/// whose commander survives, and a draw when both die.
pub proof fn lemma_winner_is_survivor(t0_dead: bool, t1_dead: bool)
    ensures
        (game_over_outcome(t0_dead, t1_dead) is Some) == (t0_dead || t1_dead),
        game_over_outcome(t0_dead, t1_dead) matches Some(o) ==> match o.0 {
            None => t0_dead && t1_dead,
            Some(w) => (w == 0 && !t0_dead && t1_dead) || (w == 1 && t0_dead && !t1_dead),
        },
{
}

/// What the world tells about a commander entity.
#[derive(Clone, Copy, Debug, PartialEq, Eq, Structural)]
pub struct CommanderProbe {
    /// The entity still exists.
    pub exists: bool,
    /// The entity carries the dead marker.
    pub marked_dead: bool,
    /// Whether its health is above zero (`None`: it has no health).
    pub health_above_zero: Option<bool>,
}

/// A commander is dead when there is none, its entity is gone, it is marked
/// dead, it has no health, or its health is not above zero.
pub open spec fn commander_dead(probe: Option<CommanderProbe>) -> bool {
    match probe {
        None => true,
        Some(p) => !p.exists || p.marked_dead || match p.health_above_zero {
            None => true,
            Some(h) => !h,
        },
    }
}

/// Whether the probed commander counts as dead.
pub fn is_commander_dead(probe: Option<CommanderProbe>) -> (r: bool)
    ensures
        r == commander_dead(probe),
{
    match probe {
        None => true,
        Some(p) => !p.exists || p.marked_dead || match p.health_above_zero {
            None => true,
            Some(h) => !h,
        },
    }
}

/// Seed of the miscellaneous random numbers of a fresh game.
pub const INITIAL_RNG_SEED: u64 = 12345;

/// The flow of a game: pause, frame counter, placement mode, commanders and
/// the game-over record.
pub struct GameControl {
    pub paused: bool,
    pub frame_count: u64,
    pub placement_mode: Option<PlacementType>,
    pub commander_team0: Option<u64>,
    pub commander_team1: Option<u64>,
    /// First factory of team 1, tracked for the AI.
    pub factory_team1: Option<u64>,
    pub rng_seed: u64,
    pub game_over: Option<GameOver>,
}

impl GameControl {
    /// A fresh game with the given commanders.
    pub fn new(commander_team0: Option<u64>, commander_team1: Option<u64>) -> (r: Self)
        ensures
            !r.paused,
            r.frame_count == 0,
            r.placement_mode is None,
            r.commander_team0 == commander_team0,
            r.commander_team1 == commander_team1,
            r.factory_team1 is None,
            r.rng_seed == INITIAL_RNG_SEED,
            r.game_over is None,
    {
        GameControl {
            paused: false,
            frame_count: 0,
            placement_mode: None,
            commander_team0,
            commander_team1,
            factory_team1: None,
            rng_seed: INITIAL_RNG_SEED,
            game_over: None,
        }
    }

    /// Reset to a fresh game with new commanders. The pause flag stays as it
    /// was and the seed moves on by 7, so the next game differs.
    pub fn reset(&mut self, commander_team0: Option<u64>, commander_team1: Option<u64>)
        ensures
            final(self).paused == old(self).paused,
            final(self).frame_count == 0,
            final(self).placement_mode is None,
            final(self).commander_team0 == commander_team0,
            final(self).commander_team1 == commander_team1,
            final(self).factory_team1 is None,
            final(self).rng_seed == old(self).rng_seed.wrapping_add(7),
            final(self).game_over is None,
    {
        self.frame_count = 0;
        self.placement_mode = None;
        self.commander_team0 = commander_team0;
        self.commander_team1 = commander_team1;
        self.factory_team1 = None;
        self.rng_seed = self.rng_seed.wrapping_add(7);
        self.game_over = None;
    }

    /// Whether the game has ended.
    pub fn is_game_over(&self) -> (r: bool)
        ensures
            r == self.game_over is Some,
    {
        self.game_over.is_some()
    }

    /// Whether a tick advances the simulation: not when the game is over
    /// or paused.
    pub fn should_tick(&self) -> (r: bool)
        ensures
            r == (self.game_over is None && !self.paused),
    {
        self.game_over.is_none() && !self.paused
    }

    /// Toggle the pause flag.
    pub fn toggle_pause(&mut self)
        ensures
            *final(self) == (GameControl { paused: !old(self).paused, ..*old(self) }),
    {
        self.paused = !self.paused;
    }

    /// Enter placement mode for a building type.
    pub fn handle_build_command(&mut self, placement_type: PlacementType)
        ensures
            *final(self) == (GameControl { placement_mode: Some(placement_type), ..*old(self) }),
    {
        self.placement_mode = Some(placement_type);
    }

    /// Leave placement mode, returning the building type that was pending.
    pub fn take_placement(&mut self) -> (r: Option<PlacementType>)
        ensures
            r == old(self).placement_mode,
            *final(self) == (GameControl { placement_mode: None, ..*old(self) }),
    {
        self.placement_mode.take()
    }

    /// Count a finished frame.
    pub fn advance_frame(&mut self)
        requires
            old(self).frame_count < u64::MAX,
        ensures
            *final(self) == (GameControl { frame_count: (old(self).frame_count + 1) as u64, ..*old(self) }),
    {
        self.frame_count = self.frame_count + 1;
    }

    /// Track a factory that team 1 just completed, unless one is tracked
    /// already. Returns the factory that became tracked, if any.
    pub fn track_team1_factory(&mut self, new_factory: Option<u64>) -> (r: Option<u64>)
        ensures
            (new_factory is Some && old(self).factory_team1 is None) ==> r == new_factory,
            !(new_factory is Some && old(self).factory_team1 is None) ==> r is None,
            *final(self) == (GameControl {
                factory_team1: if new_factory is Some && old(self).factory_team1 is None {
                    new_factory
                } else {
                    old(self).factory_team1
                },
                ..*old(self)
            }),
    {
        match new_factory {
            Some(f) => {
                if self.factory_team1.is_none() {
                    self.factory_team1 = Some(f);
                    Some(f)
                } else {
                    None
                }
            },
            None => None,
        }
    }

    /// After a tick: record the end of the game if a commander died and the
    /// game had not ended yet. Returns whether the game is over now.
    pub fn check_game_over(&mut self, t0_dead: bool, t1_dead: bool) -> (r: bool)
        ensures
            old(self).game_over is Some ==> final(self).game_over == old(self).game_over,
            old(self).game_over is None ==> match final(self).game_over {
                None => game_over_outcome(t0_dead, t1_dead) is None,
                Some(go) => game_over_outcome(t0_dead, t1_dead) is Some && is_outcome(
                    go,
                    game_over_outcome(t0_dead, t1_dead)->0,
                ),
            },
            r == final(self).game_over is Some,
            *final(self) == (GameControl { game_over: final(self).game_over, ..*old(self) }),
    {
        if self.game_over.is_some() {
            return true;
        }
        self.game_over = game_over_for(t0_dead, t1_dead);
        self.game_over.is_some()
    }
}

/// The builder that a placement uses: the selected unit if it is a
/// builder, else the team-0 commander.
pub fn choose_builder(selected: Option<u64>, selected_is_builder: bool, commander_team0: Option<u64>) -> (r: Option<u64>)
    ensures
        r == (if selected_is_builder { selected } else { commander_team0 }),
{
    if selected_is_builder {
        selected
    } else {
        commander_team0
    }
}

} // verus!
