//! The rules of the game, as mathematics: what one jump does to a board, what
//! a whole ply (a chain of jumps) does, and when a player still has a jump
//! available. The executable move engine in `game` is verified against these
//! definitions.

use vstd::prelude::*;

use crate::board::Papamu;
use crate::errors::MoveError;
use crate::occupancy::Occupancy;
use crate::position::{in_bounds, lemma_midpoint_characterization, Position};

verus! {

/// A board as specifications see it: a map from in-bounds coordinate pairs to
/// cell occupancies.
pub type BoardView = Map<(int, int), Occupancy>;

/// The outcome of one jump by a `mover` piece from `current` to `target` over
/// a board `b`: either the board after the jump, or the exact error, checked
/// in this order: the landing cell must be empty, the hop must be straight and
/// two apart, and the hopped-over cell must hold the `jumped` colour. On
/// success the vacated and hopped-over cells become empty and the landing cell
/// holds the mover's piece.
pub open spec fn jump_outcome(
    b: BoardView,
    mover: Occupancy,
    jumped: Occupancy,
    current: Position,
    target: Position,
) -> Result<BoardView, MoveError> {
    if b[target@] != Occupancy::Empty {
        Err(MoveError::OccupiedTarget { target })
    } else {
        match current.spec_midpoint(target) {
            Some(mid) => if b[mid@] != jumped {
                Err(
                    MoveError::IllegalJump {
                        source_occ: b[current@],
                        source: current,
                        mid_occ: b[mid@],
                        mid,
                        target,
                    },
                )
            } else {
                Ok(
                    b.insert(current@, Occupancy::Empty).insert(mid@, Occupancy::Empty).insert(
                        target@,
                        mover,
                    ),
                )
            },
            None => Err(
                MoveError::IllegalTarget { source_occ: b[current@], source: current, target },
            ),
        }
    }
}

/// The outcome of a chain of jumps by the same piece, starting at `current`
/// and landing on each element of `targets` in order. The first failing jump
/// decides the error; an empty chain leaves the board as it is.
pub open spec fn chain_outcome(
    b: BoardView,
    mover: Occupancy,
    jumped: Occupancy,
    current: Position,
    targets: Seq<Position>,
) -> Result<BoardView, MoveError>
    decreases targets.len(),
{
    if targets.len() == 0 {
        Ok(b)
    } else {
        match jump_outcome(b, mover, jumped, current, targets[0]) {
            Ok(b2) => chain_outcome(b2, mover, jumped, targets[0], targets.drop_first()),
            Err(e) => Err(e),
        }
    }
}

/// The outcome of a whole ply: an empty target sequence, an empty source cell
/// and a source piece of the wrong colour are rejected, in that order; then
/// the chain of jumps is played out as `chain_outcome` says.
pub open spec fn turn_outcome(
    b: BoardView,
    mover: Occupancy,
    jumped: Occupancy,
    source: Position,
    targets: Seq<Position>,
) -> Result<BoardView, MoveError> {
    if targets.len() == 0 {
        Err(MoveError::NoTargets { source_occ: b[source@], source })
    } else if b[source@] == Occupancy::Empty {
        Err(MoveError::EmptySource { source })
    } else if b[source@] != mover {
        Err(MoveError::WrongColor { source_occ: b[source@], source, desired_occ: mover })
    } else {
        chain_outcome(b, mover, jumped, source, targets)
    }
}

/// One of the four axis-aligned unit directions.
pub open spec fn unit_dir(dx: int, dy: int) -> bool {
    ||| (dx == 1 && dy == 0)
    ||| (dx == -1 && dy == 0)
    ||| (dx == 0 && dy == 1)
    ||| (dx == 0 && dy == -1)
}

/// Cell (x, y) starts a jump in direction (dx, dy) over board `b`: the cell
/// two steps away is on the board and empty, and the adjacent cell holds the
/// `jumped` colour. Neither the occupancy of (x, y) itself nor whose piece
/// stands there is examined.
pub open spec fn jump_triple(
    b: BoardView,
    jumped: Occupancy,
    x: int,
    y: int,
    dx: int,
    dy: int,
) -> bool {
    &&& unit_dir(dx, dy)
    &&& in_bounds(x, y)
    &&& in_bounds(x + 2 * dx, y + 2 * dy)
    &&& b[(x + 2 * dx, y + 2 * dy)] == Occupancy::Empty
    &&& b[(x + dx, y + dy)] == jumped
}

/// Somewhere on the board a jump over a `jumped` piece into an empty cell is
/// available.
pub open spec fn has_jump_over(b: BoardView, jumped: Occupancy) -> bool {
    exists|x: int, y: int, dx: int, dy: int| jump_triple(b, jumped, x, y, dx, dy)
}

/// Validates and applies a single jump on the working board: exactly the step
/// `jump_outcome` describes, leaving the board untouched on failure.
pub(crate) fn next_subturn(
    board: &mut Papamu,
    mover: Occupancy,
    jumped: Occupancy,
    current: Position,
    target: Position,
) -> (r: Result<(), MoveError>)
    requires
        current.valid(),
        target.valid(),
    ensures
        jump_outcome(old(board)@, mover, jumped, current, target) matches Ok(b2) ==> r is Ok
            && final(board)@ == b2,
        jump_outcome(old(board)@, mover, jumped, current, target) matches Err(e) ==> r == Result::<
            (),
            MoveError,
        >::Err(e) && final(board)@ == old(board)@,
{
    if board.get(target).is_occupied() {
        return Err(MoveError::OccupiedTarget { target });
    }
    match current.biadjacency(target) {
        Some(mid) => {
            proof {
                lemma_midpoint_characterization(current, target);
            }
            let mid_occ = board.get(mid);
            if mid_occ != jumped {
                Err(
                    MoveError::IllegalJump {
                        source_occ: board.get(current),
                        source: current,
                        mid_occ,
                        mid,
                        target,
                    },
                )
            } else {
                board.set(current, Occupancy::Empty);
                board.set(mid, Occupancy::Empty);
                board.set(target, mover);
                Ok(())
            }
        },
        None => Err(
            MoveError::IllegalTarget { source_occ: board.get(current), source: current, target },
        ),
    }
}

/// Decides whether any cell of the board starts a jump over a `jumped` piece
/// in one of the four directions: cell two away empty, adjacent cell `jumped`.
fn jump_exists_at(board: &Papamu, jumped: Occupancy, x: u8, y: u8) -> (r: bool)
    requires
        x <= 9,
        y <= 9,
    ensures
        r == exists|dx: int, dy: int| jump_triple(board@, jumped, x as int, y as int, dx, dy),
{
    let right = x <= 7 && board.get_xy(x + 2, y).is_empty() && board.get_xy(x + 1, y) == jumped;
    let left = x >= 2 && board.get_xy(x - 2, y).is_empty() && board.get_xy(x - 1, y) == jumped;
    let up = y <= 7 && board.get_xy(x, y + 2).is_empty() && board.get_xy(x, y + 1) == jumped;
    let down = y >= 2 && board.get_xy(x, y - 2).is_empty() && board.get_xy(x, y - 1) == jumped;
    let r = right || left || up || down;
    proof {
        if right {
            assert(jump_triple(board@, jumped, x as int, y as int, 1, 0));
        } else if left {
            assert(jump_triple(board@, jumped, x as int, y as int, -1, 0));
        } else if up {
            assert(jump_triple(board@, jumped, x as int, y as int, 0, 1));
        } else if down {
            assert(jump_triple(board@, jumped, x as int, y as int, 0, -1));
        } else {
            assert forall|dx: int, dy: int| !jump_triple(
                board@,
                jumped,
                x as int,
                y as int,
                dx,
                dy,
            ) by {
                if unit_dir(dx, dy) {
                }
            }
        }
    }
    r
}

/// Scans the whole board for a jump over a `jumped` piece; the executable
/// side of `has_jump_over`.
pub(crate) fn scan_any_jump(board: &Papamu, jumped: Occupancy) -> (r: bool)
    ensures
        r == has_jump_over(board@, jumped),
{
    let mut x: u8 = 0;
    while x < 10
        invariant
            x <= 10,
            forall|i: int, j: int, dx: int, dy: int|
                0 <= i < x ==> !jump_triple(board@, jumped, i, j, dx, dy),
        decreases 10 - x,
    {
        let mut y: u8 = 0;
        while y < 10
            invariant
                x <= 9,
                y <= 10,
                forall|i: int, j: int, dx: int, dy: int|
                    0 <= i < x ==> !jump_triple(board@, jumped, i, j, dx, dy),
                forall|j: int, dx: int, dy: int|
                    0 <= j < y ==> !jump_triple(board@, jumped, x as int, j, dx, dy),
            decreases 10 - y,
        {
            if jump_exists_at(board, jumped, x, y) {
                proof {
                    let (dx, dy) = choose|dx: int, dy: int|
                        jump_triple(board@, jumped, x as int, y as int, dx, dy);
                    assert(jump_triple(board@, jumped, x as int, y as int, dx, dy));
                }
                return true;
            }
            y += 1;
        }
        proof {
            assert forall|j: int, dx: int, dy: int| !jump_triple(
                board@,
                jumped,
                x as int,
                j,
                dx,
                dy,
            ) by {
                if 0 <= j < 10 {
                }
            }
        }
        x += 1;
    }
    proof {
        assert forall|i: int, j: int, dx: int, dy: int| !jump_triple(
            board@,
            jumped,
            i,
            j,
            dx,
            dy,
        ) by {
            if 0 <= i < 10 {
            }
        }
    }
    false
}

} // verus!
