//! Rules of a brick-breaking arcade game: level layouts, match scoring,
//! the player's ball economy, win evaluation and level progression.
//!
//! Lengths are integers counted in hundredths of a world unit, and the
//! positions of blocks on their grid in halves of a hundredth.

pub mod ball;
pub mod block;
pub mod config;
pub mod events;
pub mod game;
pub mod geometry;
pub mod layout;
pub mod level;
pub mod match_state;
pub mod physics;
pub mod pickup_map;
pub mod pickups;
pub mod player;
pub mod player_laws;
pub mod points;
pub mod powerups;
pub mod random;
pub mod score_laws;
pub mod ship;
pub mod state;
pub mod states;
pub mod text;
pub mod trigger;
pub mod trigger_maps;
pub mod ui;
