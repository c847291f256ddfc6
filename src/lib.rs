//! Deterministic engine of a level-based tile-swap puzzle: the level table,
//! seeded board generation, move validation, the session lifecycle, player
//! progression and the reward tier of a win.

pub mod error;
pub mod levels;
pub mod board;
pub mod identity;
pub mod progress;
pub mod session;
pub mod reward;
pub mod handoff;
