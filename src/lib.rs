//! Rules engine of a two-player pebble-removal game: a shared pile is
//! depleted in turn by the user and by the program, which plays a fixed
//! randomized policy.
pub mod game;
pub mod laws;
pub mod random;
pub mod types;

pub use game::{handle, init, program_remove_count, state};
pub use random::RandomSource;
pub use types::{
    DifficultyLevel, GameError, GameState, PebblesAction, PebblesEvent, PebblesInit, Player,
};
