use vstd::prelude::*;
use vstd::arithmetic::div_mod::lemma_add_mod_noop;

use crate::levels::BOARD_SIDE;

verus! {

/// Cell codes of the board: 0 is an unused cell, 1 to 5 the candy colors.
#[derive(Clone, Copy, Debug, PartialEq, Eq, Structural)]
pub enum CandyColor {
    Blank,
    Red,
    Green,
    Blue,
    Purple,
    Yellow,
}

impl CandyColor {
    /// The cell code of the color.
    pub fn code(&self) -> (r: u8)
        ensures
            r <= 5,
            (r == 0) == (*self == CandyColor::Blank),
            (r == 1) == (*self == CandyColor::Red),
            (r == 2) == (*self == CandyColor::Green),
            (r == 3) == (*self == CandyColor::Blue),
            (r == 4) == (*self == CandyColor::Purple),
            (r == 5) == (*self == CandyColor::Yellow),
    {
        match self {
            CandyColor::Blank => 0,
            CandyColor::Red => 1,
            CandyColor::Green => 2,
            CandyColor::Blue => 3,
            CandyColor::Purple => 4,
            CandyColor::Yellow => 5,
        }
    }

    /// The color of a cell code, if the code is one.
    pub fn from_code(code: u8) -> (r: Option<CandyColor>)
        ensures
            code <= 5 ==> r.is_some() && r.unwrap().code_spec() == code,
            code > 5 ==> r.is_none(),
    {
        match code {
            0 => Some(CandyColor::Blank),
            1 => Some(CandyColor::Red),
            2 => Some(CandyColor::Green),
            3 => Some(CandyColor::Blue),
            4 => Some(CandyColor::Purple),
            5 => Some(CandyColor::Yellow),
            _ => None,
        }
    }

    pub open spec fn code_spec(&self) -> u8 {
        match self {
            CandyColor::Blank => 0,
            CandyColor::Red => 1,
            CandyColor::Green => 2,
            CandyColor::Blue => 3,
            CandyColor::Purple => 4,
            CandyColor::Yellow => 5,
        }
    }
}

/// Multiplier of the board generator's linear congruential step.
pub const LCG_MULTIPLIER: u64 = 1103515245;

/// Increment of the board generator's linear congruential step.
pub const LCG_INCREMENT: u64 = 12345;

/// One step of the generator: `state * 1103515245 + 12345` modulo 2^64.
pub open spec fn lcg_next(state: u64) -> u64 {
    ((state as int * LCG_MULTIPLIER as int + LCG_INCREMENT as int) % 0x1_0000_0000_0000_0000) as u64
}

/// The generator's state after `n` steps from `seed`.
pub open spec fn lcg_state(seed: u64, n: nat) -> u64
    decreases n,
{
    if n == 0 {
        seed
    } else {
        lcg_next(lcg_state(seed, (n - 1) as nat))
    }
}

/// The color drawn from a generator state.
pub open spec fn color_of_state(state: u64) -> u8 {
    ((state / 65536) % 5 + 1) as u8
}

/// Position of cell (row, col) in the row-major storage.
pub open spec fn cell_index(row: int, col: int) -> int {
    row * BOARD_SIDE + col
}

/// What a board generated from `seed` with the given active region holds at
/// (row, col): the active region is filled in row-major order, one
/// generator step per cell, and every other cell is 0.
pub open spec fn generated_cell(seed: u64, rows: int, cols: int, row: int, col: int) -> u8 {
    if row < rows && col < cols {
        color_of_state(lcg_state(seed, (row * cols + col + 1) as nat))
    } else {
        0
    }
}

/// A fixed 10 by 10 board of cell codes together with its active region.
#[derive(Clone, Debug)]
pub struct Board {
    /// Row-major cell codes, `BOARD_SIDE * BOARD_SIDE` of them.
    pub cells: Vec<u8>,
    pub rows: u8,
    pub cols: u8,
}

impl Board {
    /// The storage has its fixed size and the active region fits in it.
    pub open spec fn wf(&self) -> bool {
        &&& self.cells@.len() == BOARD_SIDE * BOARD_SIDE
        &&& self.rows <= BOARD_SIDE
        &&& self.cols <= BOARD_SIDE
    }

    /// The code at (row, col).
    pub open spec fn at(&self, row: int, col: int) -> u8 {
        self.cells@[cell_index(row, col)]
    }

    /// (row, col) lies in the active region.
    pub open spec fn in_region(&self, row: int, col: int) -> bool {
        0 <= row < self.rows && 0 <= col < self.cols
    }

    /// Every active cell holds a color and every other cell is blank.
    pub open spec fn colored(&self) -> bool {
        forall|r: int, c: int|
            0 <= r < BOARD_SIDE && 0 <= c < BOARD_SIDE ==> {
                let v = #[trigger] self.at(r, c);
                if self.in_region(r, c) {
                    1 <= v <= 5
                } else {
                    v == 0
                }
            }
    }

    /// The board is exactly the one generated from `seed` for its region.
    pub open spec fn generated_from(&self, seed: u64) -> bool {
        forall|r: int, c: int|
            0 <= r < BOARD_SIDE && 0 <= c < BOARD_SIDE ==> #[trigger] self.at(r, c)
                == generated_cell(seed, self.rows as int, self.cols as int, r, c)
    }

    /// The code at (row, col).
    pub fn cell(&self, row: u8, col: u8) -> (r: u8)
        requires
            self.wf(),
            row < BOARD_SIDE,
            col < BOARD_SIDE,
        ensures
            r == self.at(row as int, col as int),
    {
        self.cells[row as usize * 10 + col as usize]
    }
}

/// A board's cells with the codes at two positions exchanged.
pub open spec fn swapped_cells(cells: Seq<u8>, a: int, b: int) -> Seq<u8> {
    cells.update(a, cells[b]).update(b, cells[a])
}

/// Swapping the same two cells twice gives the cells back.
pub proof fn lemma_swap_twice(cells: Seq<u8>, a: int, b: int)
    requires
        0 <= a < cells.len(),
        0 <= b < cells.len(),
    ensures
        swapped_cells(swapped_cells(cells, a, b), b, a) == cells,
{
    assert(swapped_cells(swapped_cells(cells, a, b), b, a) =~= cells);
}

/// The generator step as the program computes it, with wrapping arithmetic.
fn lcg_step(state: u64) -> (r: u64)
    ensures
        r == lcg_next(state),
{
    let r = state.wrapping_mul(LCG_MULTIPLIER).wrapping_add(LCG_INCREMENT);
    proof {
        let m: int = 0x1_0000_0000_0000_0000;
        let p: int = state as int * LCG_MULTIPLIER as int;
        lemma_add_mod_noop(p, LCG_INCREMENT as int, m);
        assert(LCG_INCREMENT as int % m == LCG_INCREMENT as int);
    }
    r
}

/// Color of a generator state: `(state / 65536) % 5 + 1`.
fn color_from_state(state: u64) -> (r: u8)
    ensures
        r == color_of_state(state),
        1 <= r <= 5,
{
    ((state / 65536) % 5 + 1) as u8
}

/// Every cell of a generated board is a color inside its region and blank
/// outside it.
pub proof fn lemma_generated_colored(b: &Board, seed: u64)
    requires
        b.wf(),
        b.generated_from(seed),
    ensures
        b.colored(),
{
}

/// Generation is deterministic: two boards generated from the same seed for
/// the same region hold the same cells.
pub proof fn lemma_generate_deterministic(b1: &Board, b2: &Board, seed: u64)
    requires
        b1.wf(),
        b2.wf(),
        b1.rows == b2.rows,
        b1.cols == b2.cols,
        b1.generated_from(seed),
        b2.generated_from(seed),
    ensures
        b1.cells@ == b2.cells@,
{
    assert forall|k: int| 0 <= k < BOARD_SIDE * BOARD_SIDE implies b1.cells@[k] == b2.cells@[k] by {
        let r = k / 10;
        let c = k % 10;
        assert(cell_index(r, c) == k);
        assert(b1.at(r, c) == b2.at(r, c));
    }
    assert(b1.cells@ =~= b2.cells@);
}

/// Builds the board of a session from `seed`: the active `rows` by `cols`
/// region gets one color per generator step in row-major order, the rest
/// stays blank.
pub fn generate_grid(seed: u64, rows: u8, cols: u8) -> (b: Board)
    requires
        rows <= BOARD_SIDE,
        cols <= BOARD_SIDE,
    ensures
        b.wf(),
        b.rows == rows,
        b.cols == cols,
        b.generated_from(seed),
        b.colored(),
{
    let mut cells: Vec<u8> = Vec::new();
    let mut i: usize = 0;
    while i < 100
        invariant
            i <= 100,
            cells@.len() == i,
            forall|k: int| 0 <= k < i ==> cells@[k] == 0,
        decreases 100 - i,
    {
        cells.push(0);
        i = i + 1;
    }
    let mut state: u64 = seed;
    let mut r: u8 = 0;
    while r < rows
        invariant
            rows <= BOARD_SIDE,
            cols <= BOARD_SIDE,
            r <= rows,
            cells@.len() == 100,
            state == lcg_state(seed, (r * cols) as nat),
            forall|r2: int, c2: int|
                0 <= r2 < BOARD_SIDE && 0 <= c2 < BOARD_SIDE ==> #[trigger] cells@[cell_index(r2, c2)]
                    == if r2 < r { generated_cell(seed, rows as int, cols as int, r2, c2) } else { 0 },
        decreases rows - r,
    {
        let mut c: u8 = 0;
        while c < cols
            invariant
                rows <= BOARD_SIDE,
                cols <= BOARD_SIDE,
                r < rows,
                c <= cols,
                cells@.len() == 100,
                state == lcg_state(seed, (r * cols + c) as nat),
                forall|r2: int, c2: int|
                    0 <= r2 < BOARD_SIDE && 0 <= c2 < BOARD_SIDE ==> #[trigger] cells@[cell_index(r2, c2)]
                        == if r2 < r || (r2 == r && c2 < c) {
                            generated_cell(seed, rows as int, cols as int, r2, c2)
                        } else {
                            0
                        },
            decreases cols - c,
        {
            state = lcg_step(state);
            assert(state == lcg_state(seed, (r * cols + c + 1) as nat));
            let v = color_from_state(state);
            cells.set(r as usize * 10 + c as usize, v);
            c = c + 1;
        }
        assert((r + 1) * cols == r * cols + cols) by (nonlinear_arith);
        r = r + 1;
    }
    let b = Board { cells, rows, cols };
    proof {
        lemma_generated_colored(&b, seed);
    }
    b
}

} // verus!
