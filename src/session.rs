use vstd::prelude::*;

use crate::board::Board;
use crate::board::cell_index;
use crate::board::generate_grid;
use crate::board::swapped_cells;
use crate::board::lemma_swap_twice;
use crate::error::CandyCrushError;
use crate::identity::Credential;
use crate::identity::PlayerKey;
use crate::identity::authorize;
use crate::identity::authorized;
use crate::levels::level_config;
use crate::levels::level_spec;
use crate::levels::valid_level;
use crate::progress::PlayerProfile;
use crate::progress::apply_result;
use crate::progress::can_record;
use crate::progress::recorded;

verus! {

/// One player's game: active from its start until it is ended.
#[derive(Clone, Debug)]
pub struct GameSession {
    pub player: PlayerKey,
    pub level: u8,
    pub board: Board,
    /// The final score, set when the game ends.
    pub score: u64,
    pub moves_made: u32,
    pub start_time: i64,
    pub is_active: bool,
}

impl GameSession {
    /// The level is in the catalog, the board's region is that level's size
    /// and holds colors only.
    pub open spec fn wf(&self) -> bool {
        &&& valid_level(self.level as int)
        &&& self.board.wf()
        &&& self.board.rows == level_spec(self.level as int).rows
        &&& self.board.cols == level_spec(self.level as int).cols
        &&& self.board.colored()
    }

    /// The score needed to win this session's level.
    pub open spec fn target_score(&self) -> u64 {
        level_spec(self.level as int).target_score
    }
}

/// Distance between two coordinates.
pub open spec fn dist(a: int, b: int) -> int {
    if a >= b { a - b } else { b - a }
}

/// The two cells are orthogonal neighbours.
pub open spec fn adjacent(from_row: int, from_col: int, to_row: int, to_col: int) -> bool {
    dist(from_row, to_row) + dist(from_col, to_col) == 1
}

/// Why swapping (from_row, from_col) with (to_row, to_col) is refused in `s`,
/// if it is.
pub open spec fn move_error(s: GameSession, from_row: int, from_col: int, to_row: int, to_col: int) -> Option<CandyCrushError> {
    let rows = level_spec(s.level as int).rows as int;
    let cols = level_spec(s.level as int).cols as int;
    if !s.is_active {
        Some(CandyCrushError::GameNotActive)
    } else if !(0 <= from_row < rows && 0 <= from_col < cols && 0 <= to_row < rows && 0 <= to_col < cols) {
        Some(CandyCrushError::InvalidPosition)
    } else if !adjacent(from_row, from_col, to_row, to_col) {
        Some(CandyCrushError::NotAdjacent)
    } else {
        None
    }
}

/// `t` is `s` after the two cells were swapped and one move was counted.
pub open spec fn moved(s: GameSession, t: GameSession, from_row: int, from_col: int, to_row: int, to_col: int) -> bool {
    &&& t.player == s.player
    &&& t.level == s.level
    &&& t.score == s.score
    &&& t.start_time == s.start_time
    &&& t.is_active == s.is_active
    &&& t.moves_made == s.moves_made + 1
    &&& t.board.rows == s.board.rows
    &&& t.board.cols == s.board.cols
    &&& t.board.cells@ == swapped_cells(
        s.board.cells@,
        cell_index(from_row, from_col),
        cell_index(to_row, to_col),
    )
}

/// `t` is `s` ended with `final_score`.
pub open spec fn ended(s: GameSession, t: GameSession, final_score: u64) -> bool {
    &&& t.player == s.player
    &&& t.level == s.level
    &&& t.board == s.board
    &&& t.moves_made == s.moves_made
    &&& t.start_time == s.start_time
    &&& t.score == final_score
    &&& !t.is_active
}

/// Starts a game of `level` for `player` at time `now`, whose value also
/// seeds the board. The level must be in the catalog and unlocked in
/// `profile`.
pub fn start_game(player: PlayerKey, level: u8, profile: &PlayerProfile, now: i64) -> (r: Result<GameSession, CandyCrushError>)
    ensures
        !valid_level(level as int) ==> r == Err::<GameSession, CandyCrushError>(CandyCrushError::InvalidLevel),
        valid_level(level as int) && !profile.unlocked_levels.contains(level as int)
            ==> r == Err::<GameSession, CandyCrushError>(CandyCrushError::LevelLocked),
        valid_level(level as int) && profile.unlocked_levels.contains(level as int) ==> r is Ok,
        r matches Ok(s) ==> {
            &&& s.wf()
            &&& s.player == player
            &&& s.level == level
            &&& s.score == 0
            &&& s.moves_made == 0
            &&& s.start_time == now
            &&& s.is_active
            &&& s.board.generated_from(now as u64)
        },
{
    let config = match level_config(level) {
        Ok(c) => c,
        Err(e) => return Err(e),
    };
    if !profile.unlocked_levels.is_unlocked(level) {
        return Err(CandyCrushError::LevelLocked);
    }
    let board = generate_grid(now as u64, config.rows, config.cols);
    Ok(GameSession {
        player,
        level,
        board,
        score: 0,
        moves_made: 0,
        start_time: now,
        is_active: true,
    })
}

/// Swapping two cells of the region keeps every active cell a color and
/// every other cell blank.
proof fn lemma_swap_keeps_colored(s: GameSession, t: GameSession, from_row: int, from_col: int, to_row: int, to_col: int)
    requires
        s.wf(),
        move_error(s, from_row, from_col, to_row, to_col).is_none(),
        moved(s, t, from_row, from_col, to_row, to_col),
        t.board.cells@.len() == s.board.cells@.len(),
    ensures
        t.wf(),
{
    assert forall|r: int, c: int| 0 <= r < 10 && 0 <= c < 10 implies {
        let v = #[trigger] t.board.at(r, c);
        if t.board.in_region(r, c) { 1 <= v <= 5 } else { v == 0 }
    } by {
        let i = cell_index(r, c);
        let a = cell_index(from_row, from_col);
        let b = cell_index(to_row, to_col);
        let va = s.board.at(from_row, from_col);
        let vb = s.board.at(to_row, to_col);
        let vi = s.board.at(r, c);
        assert(1 <= va <= 5);
        assert(1 <= vb <= 5);
        if i == b {
            assert(r == to_row && c == to_col);
            assert(t.board.at(r, c) == va);
        } else if i == a {
            assert(r == from_row && c == from_col);
            assert(t.board.at(r, c) == vb);
        } else {
            assert(t.board.at(r, c) == vi);
        }
    }
}

/// Swaps the candies at (from_row, from_col) and (to_row, to_col) of an
/// active session and counts the move. Refused, with the session unchanged,
/// when the session has ended, when a position lies outside the level's
/// region, or when the two cells are not orthogonal neighbours, checked in
/// that order.
pub fn make_move(session: &mut GameSession, from_row: u8, from_col: u8, to_row: u8, to_col: u8) -> (r: Result<(), CandyCrushError>)
    requires
        old(session).wf(),
        old(session).moves_made < u32::MAX,
    ensures
        final(session).wf(),
        match move_error(*old(session), from_row as int, from_col as int, to_row as int, to_col as int) {
            Some(e) => r == Err::<(), CandyCrushError>(e) && *final(session) == *old(session),
            None => r is Ok && moved(*old(session), *final(session), from_row as int, from_col as int, to_row as int, to_col as int),
        },
{
    if !session.is_active {
        return Err(CandyCrushError::GameNotActive);
    }
    let rows = session.board.rows;
    let cols = session.board.cols;
    if !(from_row < rows && from_col < cols && to_row < rows && to_col < cols) {
        return Err(CandyCrushError::InvalidPosition);
    }
    let row_diff: u8 = if from_row >= to_row { from_row - to_row } else { to_row - from_row };
    let col_diff: u8 = if from_col >= to_col { from_col - to_col } else { to_col - from_col };
    if !((row_diff == 1 && col_diff == 0) || (row_diff == 0 && col_diff == 1)) {
        return Err(CandyCrushError::NotAdjacent);
    }
    let ghost s0 = *session;
    let a: usize = from_row as usize * 10 + from_col as usize;
    let b: usize = to_row as usize * 10 + to_col as usize;
    let first = session.board.cells[a];
    let second = session.board.cells[b];
    session.board.cells.set(a, second);
    session.board.cells.set(b, first);
    session.moves_made = session.moves_made + 1;
    proof {
        assert(session.board.cells@ =~= swapped_cells(s0.board.cells@, a as int, b as int));
        lemma_swap_keeps_colored(s0, *session, from_row as int, from_col as int, to_row as int, to_col as int);
    }
    Ok(())
}

/// Swap involution: once a move from a to b has been made, the move from b
/// to a is allowed too and gives back the board as it was before the first.
pub proof fn lemma_move_back_restores(
    s0: GameSession,
    s1: GameSession,
    s2: GameSession,
    a_row: int,
    a_col: int,
    b_row: int,
    b_col: int,
)
    requires
        s0.wf(),
        move_error(s0, a_row, a_col, b_row, b_col).is_none(),
        moved(s0, s1, a_row, a_col, b_row, b_col),
        moved(s1, s2, b_row, b_col, a_row, a_col),
    ensures
        move_error(s1, b_row, b_col, a_row, a_col).is_none(),
        s2.board.cells@ == s0.board.cells@,
{
    lemma_swap_twice(s0.board.cells@, cell_index(a_row, a_col), cell_index(b_row, b_col));
}

/// Makes a move on behalf of `caller`, who must be the session's player or
/// hold a session key granted by it: otherwise the move is refused with
/// `InvalidAuth` before anything else is looked at.
pub fn make_authorized_move(
    session: &mut GameSession,
    credential: &Credential,
    caller: &PlayerKey,
    now: i64,
    from_row: u8,
    from_col: u8,
    to_row: u8,
    to_col: u8,
) -> (r: Result<(), CandyCrushError>)
    requires
        old(session).wf(),
        old(session).moves_made < u32::MAX,
    ensures
        final(session).wf(),
        !authorized(*credential, *caller, old(session).player, now)
            ==> r == Err::<(), CandyCrushError>(CandyCrushError::InvalidAuth) && *final(session) == *old(session),
        authorized(*credential, *caller, old(session).player, now) ==> match move_error(
            *old(session),
            from_row as int,
            from_col as int,
            to_row as int,
            to_col as int,
        ) {
            Some(e) => r == Err::<(), CandyCrushError>(e) && *final(session) == *old(session),
            None => r is Ok && moved(*old(session), *final(session), from_row as int, from_col as int, to_row as int, to_col as int),
        },
{
    if !authorize(credential, caller, &session.player, now) {
        return Err(CandyCrushError::InvalidAuth);
    }
    make_move(session, from_row, from_col, to_row, to_col)
}

/// Ends an active session with the score the client reports: the session
/// records it and becomes inactive, and the game is recorded in `profile`,
/// as won when the score reaches the level's target. An ended session is
/// refused with both records unchanged.
pub fn end_game(session: &mut GameSession, profile: &mut PlayerProfile, final_score: u64) -> (r: Result<(), CandyCrushError>)
    requires
        old(session).wf(),
        can_record(*old(profile), final_score, final_score >= old(session).target_score()),
    ensures
        final(session).wf(),
        !old(session).is_active ==> r == Err::<(), CandyCrushError>(CandyCrushError::GameNotActive)
            && *final(session) == *old(session) && *final(profile) == *old(profile),
        old(session).is_active ==> r is Ok && ended(*old(session), *final(session), final_score)
            && recorded(
            *old(profile),
            *final(profile),
            old(session).level as int,
            final_score,
            final_score >= old(session).target_score(),
        ),
{
    if !session.is_active {
        return Err(CandyCrushError::GameNotActive);
    }
    let config = match level_config(session.level) {
        Ok(c) => c,
        Err(e) => return Err(e),
    };
    let won = final_score >= config.target_score;
    apply_result(profile, session.level, final_score, won);
    session.score = final_score;
    session.is_active = false;
    Ok(())
}

} // verus!
