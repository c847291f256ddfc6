use vstd::prelude::*;

verus! {

/// Every way a transition of the engine can be refused.
#[derive(Clone, Copy, Debug, PartialEq, Eq, Structural)]
pub enum CandyCrushError {
    InvalidLevel,
    LevelLocked,
    GameNotActive,
    InvalidPosition,
    NotAdjacent,
    InvalidAuth,
    GameStillActive,
    InsufficientScore,
}

impl CandyCrushError {
    /// The message shown for the error.
    pub fn message(&self) -> (r: &'static str) {
        match self {
            CandyCrushError::InvalidLevel => "Invalid level number",
            CandyCrushError::LevelLocked => "Level is locked",
            CandyCrushError::GameNotActive => "Game session is not active",
            CandyCrushError::InvalidPosition => "Invalid grid position",
            CandyCrushError::NotAdjacent => "Candies are not adjacent",
            CandyCrushError::InvalidAuth => "Invalid authentication",
            CandyCrushError::GameStillActive => "Game is still active",
            CandyCrushError::InsufficientScore => "Insufficient score to mint NFT",
        }
    }
}

} // verus!
