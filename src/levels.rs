use vstd::prelude::*;

use crate::error::CandyCrushError;

verus! {

/// Number of levels in the catalog.
pub const LEVEL_COUNT: u8 = 10;

/// Side of the square board storage; every level fits inside it.
pub const BOARD_SIDE: u8 = 10;

/// One entry of the level catalog.
#[derive(Clone, Copy, Debug, PartialEq, Eq, Structural)]
pub struct LevelConfig {
    pub id: u8,
    pub rows: u8,
    pub cols: u8,
    pub target_score: u64,
    /// Declared time limit in milliseconds; not enforced by the engine.
    pub time_limit: i64,
}

/// A level number that the catalog holds.
pub open spec fn valid_level(level: int) -> bool {
    1 <= level <= LEVEL_COUNT
}

/// The catalog as a table from level number to configuration.
pub open spec fn level_spec(level: int) -> LevelConfig
    recommends
        valid_level(level),
{
    if level == 1 {
        LevelConfig { id: 1, rows: 6, cols: 6, target_score: 80, time_limit: 40000 }
    } else if level == 2 {
        LevelConfig { id: 2, rows: 5, cols: 7, target_score: 120, time_limit: 50000 }
    } else if level == 3 {
        LevelConfig { id: 3, rows: 5, cols: 7, target_score: 150, time_limit: 60000 }
    } else if level == 4 {
        LevelConfig { id: 4, rows: 8, cols: 7, target_score: 200, time_limit: 70000 }
    } else if level == 5 {
        LevelConfig { id: 5, rows: 9, cols: 7, target_score: 250, time_limit: 80000 }
    } else if level == 6 {
        LevelConfig { id: 6, rows: 9, cols: 7, target_score: 280, time_limit: 90000 }
    } else if level == 7 {
        LevelConfig { id: 7, rows: 9, cols: 7, target_score: 350, time_limit: 100000 }
    } else if level == 8 {
        LevelConfig { id: 8, rows: 10, cols: 7, target_score: 380, time_limit: 110000 }
    } else if level == 9 {
        LevelConfig { id: 9, rows: 10, cols: 7, target_score: 400, time_limit: 120000 }
    } else {
        LevelConfig { id: 10, rows: 10, cols: 7, target_score: 500, time_limit: 130000 }
    }
}

/// Every level of the catalog carries its own number, fits the board and has
/// a positive target.
pub proof fn lemma_catalog_well_formed(level: int)
    requires
        valid_level(level),
    ensures
        level_spec(level).id == level,
        1 <= level_spec(level).rows <= BOARD_SIDE,
        1 <= level_spec(level).cols <= BOARD_SIDE,
        level_spec(level).target_score > 0,
{
}

/// Looks up a level; levels outside 1..=10 are refused.
pub fn level_config(level: u8) -> (r: Result<LevelConfig, CandyCrushError>)
    ensures
        valid_level(level as int) ==> r == Ok::<LevelConfig, CandyCrushError>(level_spec(level as int)),
        !valid_level(level as int) ==> r == Err::<LevelConfig, CandyCrushError>(CandyCrushError::InvalidLevel),
{
    match level {
        1 => Ok(LevelConfig { id: 1, rows: 6, cols: 6, target_score: 80, time_limit: 40000 }),
        2 => Ok(LevelConfig { id: 2, rows: 5, cols: 7, target_score: 120, time_limit: 50000 }),
        3 => Ok(LevelConfig { id: 3, rows: 5, cols: 7, target_score: 150, time_limit: 60000 }),
        4 => Ok(LevelConfig { id: 4, rows: 8, cols: 7, target_score: 200, time_limit: 70000 }),
        5 => Ok(LevelConfig { id: 5, rows: 9, cols: 7, target_score: 250, time_limit: 80000 }),
        6 => Ok(LevelConfig { id: 6, rows: 9, cols: 7, target_score: 280, time_limit: 90000 }),
        7 => Ok(LevelConfig { id: 7, rows: 9, cols: 7, target_score: 350, time_limit: 100000 }),
        8 => Ok(LevelConfig { id: 8, rows: 10, cols: 7, target_score: 380, time_limit: 110000 }),
        9 => Ok(LevelConfig { id: 9, rows: 10, cols: 7, target_score: 400, time_limit: 120000 }),
        10 => Ok(LevelConfig { id: 10, rows: 10, cols: 7, target_score: 500, time_limit: 130000 }),
        _ => Err(CandyCrushError::InvalidLevel),
    }
}

} // verus!
