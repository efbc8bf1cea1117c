//! Verified core of a deterministic real-time strategy game: the random
//! number generator, matchmaking and session bookkeeping of the server,
//! AI decisions, input dispatch, load-test waves and audio playback limits.

pub mod ai;
pub mod audio;
pub mod building;
pub mod camera;
pub mod loadtest;
pub mod game;
pub mod input;
pub mod lobby;
pub mod matchmaker;
pub mod rng;
pub mod session;
pub mod setup;
pub mod units;
