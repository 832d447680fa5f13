//! Winner detection: the eight fixed winning lines, scanned in a fixed order
//! (rows top to bottom, then columns left to right, then the main diagonal,
//! then the anti-diagonal).

use vstd::prelude::*;
use crate::board::Board;
use crate::board::CellState;
use crate::board::is_marker;

verus! {

/// The row-major positions of the three cells of line `k`, for `0 <= k < 8`:
/// lines 0..3 are the rows, 3..6 the columns, 6 the main diagonal,
/// 7 the anti-diagonal.
pub open spec fn line_cells(k: int) -> (int, int, int) {
    if k == 0 {
        (0, 1, 2)
    } else if k == 1 {
        (3, 4, 5)
    } else if k == 2 {
        (6, 7, 8)
    } else if k == 3 {
        (0, 3, 6)
    } else if k == 4 {
        (1, 4, 7)
    } else if k == 5 {
        (2, 5, 8)
    } else if k == 6 {
        (0, 4, 8)
    } else {
        (2, 4, 6)
    }
}

/// Line `k` is complete: its three cells hold the same non-`Empty` marker.
pub open spec fn line_won(b: Seq<CellState>, k: int) -> bool {
    let (i0, i1, i2) = line_cells(k);
    &&& !(b[i0] is Empty)
    &&& b[i0] == b[i1]
    &&& b[i1] == b[i2]
}

/// The marker in the first cell of line `k`.
pub open spec fn line_marker(b: Seq<CellState>, k: int) -> CellState {
    b[line_cells(k).0]
}

/// The detector's verdict on a board: the marker of the first complete line
/// in the fixed scan order, or `Empty` when no line is complete.
pub open spec fn winner(b: Seq<CellState>) -> CellState {
    if line_won(b, 0) {
        line_marker(b, 0)
    } else if line_won(b, 1) {
        line_marker(b, 1)
    } else if line_won(b, 2) {
        line_marker(b, 2)
    } else if line_won(b, 3) {
        line_marker(b, 3)
    } else if line_won(b, 4) {
        line_marker(b, 4)
    } else if line_won(b, 5) {
        line_marker(b, 5)
    } else if line_won(b, 6) {
        line_marker(b, 6)
    } else if line_won(b, 7) {
        line_marker(b, 7)
    } else {
        CellState::Empty
    }
}

/// When a board has exactly one complete line, the detector returns that
/// line's marker, and that marker is not `Empty`.
pub proof fn lemma_unique_line_winner(b: Seq<CellState>, k: int)
    requires
        0 <= k < 8,
        line_won(b, k),
        forall|j: int| 0 <= j < 8 && j != k ==> !line_won(b, j),
    ensures
        winner(b) == line_marker(b, k),
        is_marker(winner(b)),
{
}

/// When a board has no complete line, the detector returns `Empty`;
/// and whenever it returns `Empty`, no line is complete.
pub proof fn lemma_no_line_no_winner(b: Seq<CellState>)
    ensures
        winner(b) is Empty <==> forall|k: int| 0 <= k < 8 ==> !line_won(b, k),
{
    if winner(b) is Empty {
        assert forall|k: int| 0 <= k < 8 implies !line_won(b, k) by {
            assert(!line_won(b, 0) && !line_won(b, 1) && !line_won(b, 2) && !line_won(b, 3)
                && !line_won(b, 4) && !line_won(b, 5) && !line_won(b, 6) && !line_won(b, 7));
        }
    }
}

/// The verdict is a function of the board alone: two readings of the same
/// board agree.
pub proof fn lemma_winner_deterministic(b: Seq<CellState>, r1: CellState, r2: CellState)
    requires
        r1 == winner(b),
        r2 == winner(b),
    ensures
        r1 == r2,
{
}

/// The pure winner-detection scan over a whole board.
pub struct WinDetector;

impl WinDetector {
    /// Scan the eight lines in the fixed order and report the first complete
    /// one's marker, or `Empty` when none is complete.
    pub fn check(board: &Board) -> (r: CellState)
        requires
            board.wf(),
        ensures
            r == winner(board@),
            r is Empty <==> (forall|k: int| 0 <= k < 8 ==> !line_won(board@, k)),
            !(r is Empty) ==> is_marker(r),
    {
        proof {
            lemma_no_line_no_winner(board@);
        }
        let mut k: usize = 0;
        while k < 8
            invariant
                board.wf(),
                k <= 8,
                forall|j: int| 0 <= j < k ==> !line_won(board@, j),
            decreases 8 - k,
        {
            let (i0, i1, i2) = Self::line_positions(k);
            let c0 = board.cell_at(i0);
            let c1 = board.cell_at(i1);
            let c2 = board.cell_at(i2);
            if c0 != CellState::Empty && c0 == c1 && c1 == c2 {
                return c0;
            }
            k = k + 1;
        }
        CellState::Empty
    }

    /// The three cell positions of line `k`, as executable values.
    fn line_positions(k: usize) -> (r: (usize, usize, usize))
        requires
            k < 8,
        ensures
            (r.0 as int, r.1 as int, r.2 as int) == line_cells(k as int),
            r.0 < 9 && r.1 < 9 && r.2 < 9,
    {
        if k == 0 {
            (0, 1, 2)
        } else if k == 1 {
            (3, 4, 5)
        } else if k == 2 {
            (6, 7, 8)
        } else if k == 3 {
            (0, 3, 6)
        } else if k == 4 {
            (1, 4, 7)
        } else if k == 5 {
            (2, 5, 8)
        } else if k == 6 {
            (0, 4, 8)
        } else {
            (2, 4, 6)
        }
    }
}

} // verus!
