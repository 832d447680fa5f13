//! The 3x3 board: cell states, coordinates, and the mutation primitive.

use vstd::prelude::*;

verus! {

/// What one cell of the board holds: nothing yet, or one player's marker.
#[derive(Clone, Copy, PartialEq, Eq, Structural, Debug)]
pub enum CellState {
    Empty,
    X,
    O,
}

/// A marker is a cell state that stands for a player, never `Empty`.
pub open spec fn is_marker(c: CellState) -> bool {
    c is X || c is O
}

/// Why a move could not be placed on the board.
#[derive(Clone, Copy, PartialEq, Eq, Structural, Debug)]
pub enum InvalidMove {
    OutOfRange,
    OccupiedCell,
}

/// True when (row, col) addresses one of the nine cells.
pub open spec fn in_range(row: int, col: int) -> bool {
    0 <= row < 3 && 0 <= col < 3
}

/// The row-major position of cell (row, col) in the board's sequence.
pub open spec fn cell_index(row: int, col: int) -> int {
    row * 3 + col
}

/// A 3x3 grid of cells, stored row-major. Always fully populated:
/// a well-formed board holds exactly nine cells.
pub struct Board {
    cells: Vec<CellState>,
}

impl View for Board {
    type V = Seq<CellState>;

    closed spec fn view(&self) -> Seq<CellState> {
        self.cells@
    }
}

impl Board {
    /// A board is well formed when it holds exactly nine cells.
    pub open spec fn wf(&self) -> bool {
        self@.len() == 9
    }

    /// A fresh board: all nine cells `Empty`.
    pub fn new() -> (b: Board)
        ensures
            b.wf(),
            forall|i: int| 0 <= i < 9 ==> b@[i] is Empty,
    {
        let mut cells: Vec<CellState> = Vec::new();
        let mut i: usize = 0;
        while i < 9
            invariant
                i <= 9,
                cells@.len() == i,
                forall|j: int| 0 <= j < i ==> cells@[j] is Empty,
            decreases 9 - i,
        {
            cells.push(CellState::Empty);
            i = i + 1;
        }
        Board { cells }
    }

    /// Read one cell; out-of-range coordinates are rejected.
    pub fn get(&self, row: usize, col: usize) -> (r: Result<CellState, InvalidMove>)
        requires
            self.wf(),
        ensures
            in_range(row as int, col as int) ==> r == Ok::<CellState, InvalidMove>(
                self@[cell_index(row as int, col as int)],
            ),
            !in_range(row as int, col as int) ==> r == Err::<CellState, InvalidMove>(
                InvalidMove::OutOfRange,
            ),
    {
        if row < 3 && col < 3 {
            Ok(self.cells[row * 3 + col])
        } else {
            Err(InvalidMove::OutOfRange)
        }
    }

    /// Read one cell by its row-major position.
    pub fn cell_at(&self, i: usize) -> (r: CellState)
        requires
            self.wf(),
            i < 9,
        ensures
            r == self@[i as int],
    {
        self.cells[i]
    }

    /// Place a player's marker on an empty cell. On any failure the board is
    /// left exactly as it was; on success exactly one cell changes, from
    /// `Empty` to the given marker.
    pub fn place(&mut self, row: usize, col: usize, player: CellState) -> (r: Result<
        (),
        InvalidMove,
    >)
        requires
            old(self).wf(),
            is_marker(player),
        ensures
            final(self).wf(),
            !in_range(row as int, col as int) ==> {
                &&& r == Err::<(), InvalidMove>(InvalidMove::OutOfRange)
                &&& final(self)@ == old(self)@
            },
            in_range(row as int, col as int) && !(old(self)@[cell_index(row as int, col as int)] is Empty) ==> {
                &&& r == Err::<(), InvalidMove>(InvalidMove::OccupiedCell)
                &&& final(self)@ == old(self)@
            },
            in_range(row as int, col as int) && old(self)@[cell_index(row as int, col as int)] is Empty ==> {
                &&& r == Ok::<(), InvalidMove>(())
                &&& final(self)@ == old(self)@.update(cell_index(row as int, col as int), player)
            },
    {
        if row >= 3 || col >= 3 {
            return Err(InvalidMove::OutOfRange);
        }
        let i = row * 3 + col;
        match self.cells[i] {
            CellState::Empty => {
                self.cells[i] = player;
                Ok(())
            },
            _ => Err(InvalidMove::OccupiedCell),
        }
    }
}

} // verus!
