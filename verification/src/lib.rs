//! A turn-based, two-team ball-possession game: a fixed roster of twelve
//! players on a discrete grid, a possession state machine driven by pass and
//! shoot commands, a geometric probability model for interceptions and shots,
//! and an append-only event log.

pub mod computer_player;
pub mod game_logic;
pub mod game_play;
pub mod probability;
