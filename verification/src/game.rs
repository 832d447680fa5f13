//! The turn state machine and the controller that applies moves and restarts
//! the game.

use vstd::prelude::*;
use crate::board::Board;
use crate::board::CellState;
use crate::board::InvalidMove;
use crate::board::cell_index;
use crate::board::in_range;
use crate::board::is_marker;
use crate::win::WinDetector;
use crate::win::winner;

verus! {

/// Whose turn it is, and whether (and how) the game has concluded.
#[derive(Clone, Copy, Debug)]
pub struct TurnState {
    pub current_player: CellState,
    pub winner: Option<CellState>,
    pub concluded: bool,
}

impl TurnState {
    /// The state's invariant: the current player is a marker, and a recorded
    /// winner is a marker and implies that the game has concluded.
    pub open spec fn wf(&self) -> bool {
        &&& is_marker(self.current_player)
        &&& (self.winner is Some ==> self.concluded)
        &&& (self.winner matches Some(w) ==> is_marker(w))
    }

    /// The state at the start of a game: X to move, nothing concluded.
    pub fn initial() -> (t: TurnState)
        ensures
            t.wf(),
            t.current_player is X,
            t.winner is None,
            !t.concluded,
    {
        TurnState { current_player: CellState::X, winner: None, concluded: false }
    }
}

/// The marker of the opponent of `p`.
pub open spec fn other_player(p: CellState) -> CellState {
    if p is X {
        CellState::O
    } else {
        CellState::X
    }
}

/// Accepted moves that do not conclude the game strictly alternate the
/// players: the mover's opponent moves next, and after two such moves the
/// same player is to move again.
pub proof fn lemma_turn_alternation(p: CellState)
    requires
        is_marker(p),
    ensures
        other_player(p) != p,
        is_marker(other_player(p)),
        other_player(other_player(p)) == p,
{
}

/// Turn alternation over a whole game: in a run of turn states that starts
/// fresh (X to move) and whose every step hands the turn to the opponent —
/// as `apply_move` ensures for each accepted, non-winning move — X is to
/// move exactly after an even number of moves, and O after an odd number.
pub proof fn lemma_alternation_over_a_game(states: Seq<TurnState>)
    requires
        states.len() >= 1,
        states[0].current_player is X,
        forall|j: int|
            0 <= j < states.len() - 1 ==> states[j + 1].current_player == other_player(
                states[j].current_player,
            ),
    ensures
        forall|i: int|
            0 <= i < states.len() ==> (states[i].current_player is X <==> i % 2 == 0),
{
    assert forall|i: int|
        0 <= i < states.len() implies (states[i].current_player is X <==> i % 2 == 0) by {
        lemma_alternation_step(states, i);
    }
}

proof fn lemma_alternation_step(states: Seq<TurnState>, i: int)
    requires
        0 <= i < states.len(),
        states[0].current_player is X,
        forall|j: int|
            0 <= j < states.len() - 1 ==> states[j + 1].current_player == other_player(
                states[j].current_player,
            ),
    ensures
        states[i].current_player is X <==> i % 2 == 0,
    decreases i,
{
    if i > 0 {
        lemma_alternation_step(states, i - 1);
        assert(states[i].current_player == other_player(states[i - 1].current_player));
    }
}

/// What an accepted move did to the game.
#[derive(Clone, Copy, PartialEq, Eq, Structural, Debug)]
pub enum MoveOutcome {
    Placed,
    Won(CellState),
}

/// Why a move was rejected. Rejected moves leave the game untouched.
#[derive(Clone, Copy, PartialEq, Eq, Structural, Debug)]
pub enum MoveError {
    InvalidMove(InvalidMove),
    GameAlreadyConcluded,
}

/// Orchestrates one game: validates and applies moves against the board and
/// the turn state, runs the win detector, and restarts the game.
pub struct GameController;

impl GameController {
    /// Apply the current player's move at (row, col).
    ///
    /// A move on a concluded game, on out-of-range coordinates, or on an
    /// occupied cell is rejected and changes nothing. An accepted move marks
    /// exactly that one cell; if it completes a line the game concludes with
    /// that winner and the player does not toggle, otherwise play passes to
    /// the opponent.
    pub fn apply_move(board: &mut Board, turn: &mut TurnState, row: usize, col: usize) -> (r:
        Result<MoveOutcome, MoveError>)
        requires
            old(board).wf(),
            old(turn).wf(),
        ensures
            final(board).wf(),
            final(turn).wf(),
            old(turn).concluded ==> {
                &&& r == Err::<MoveOutcome, MoveError>(MoveError::GameAlreadyConcluded)
                &&& final(board)@ == old(board)@
                &&& *final(turn) == *old(turn)
            },
            !old(turn).concluded && !in_range(row as int, col as int) ==> {
                &&& r == Err::<MoveOutcome, MoveError>(MoveError::InvalidMove(InvalidMove::OutOfRange))
                &&& final(board)@ == old(board)@
                &&& *final(turn) == *old(turn)
            },
            !old(turn).concluded && in_range(row as int, col as int) && !(old(board)@[cell_index(row as int, col as int)] is Empty) ==> {
                &&& r == Err::<MoveOutcome, MoveError>(MoveError::InvalidMove(InvalidMove::OccupiedCell))
                &&& final(board)@ == old(board)@
                &&& *final(turn) == *old(turn)
            },
            !old(turn).concluded && in_range(row as int, col as int) && old(board)@[cell_index(row as int, col as int)] is Empty ==> {
                let placed = old(board)@.update(cell_index(row as int, col as int), old(turn).current_player);
                &&& final(board)@ == placed
                &&& (winner(placed) is Empty ==> {
                    &&& r == Ok::<MoveOutcome, MoveError>(MoveOutcome::Placed)
                    &&& !final(turn).concluded
                    &&& final(turn).winner is None
                    &&& final(turn).current_player == other_player(old(turn).current_player)
                })
                &&& (!(winner(placed) is Empty) ==> {
                    &&& r == Ok::<MoveOutcome, MoveError>(MoveOutcome::Won(winner(placed)))
                    &&& final(turn).concluded
                    &&& final(turn).winner == Some(winner(placed))
                    &&& final(turn).current_player == old(turn).current_player
                })
            },
    {
        if turn.concluded {
            return Err(MoveError::GameAlreadyConcluded);
        }
        let player = turn.current_player;
        match board.place(row, col, player) {
            Err(e) => Err(MoveError::InvalidMove(e)),
            Ok(()) => {
                let w = WinDetector::check(board);
                if w == CellState::Empty {
                    turn.current_player = if player == CellState::X {
                        CellState::O
                    } else {
                        CellState::X
                    };
                    Ok(MoveOutcome::Placed)
                } else {
                    turn.winner = Some(w);
                    turn.concluded = true;
                    Ok(MoveOutcome::Won(w))
                }
            },
        }
    }

    /// Start a fresh game: an all-`Empty` board, X to move, nothing
    /// concluded — whatever came before.
    pub fn reset() -> (r: (Board, TurnState))
        ensures
            r.0.wf(),
            r.1.wf(),
            forall|i: int| 0 <= i < 9 ==> r.0@[i] is Empty,
            r.1.current_player is X,
            r.1.winner is None,
            !r.1.concluded,
    {
        (Board::new(), TurnState::initial())
    }
}

} // verus!
