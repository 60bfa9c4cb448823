use vstd::prelude::*;

use crate::occupancy::Occupancy;
use crate::position::Position;

verus! {

/// Why a ply (or a single jump within one) was rejected. Every error is a
/// purely local validation failure and carries the positions and occupancies
/// involved; the game it was reported for is left untouched.
#[derive(Clone, Copy, Debug, PartialEq, Eq, Structural)]
pub enum MoveError {
    /// The ply's target sequence was empty.
    NoTargets { source_occ: Occupancy, source: Position },
    /// The ply's source cell holds no piece.
    EmptySource { source: Position },
    /// The source cell's piece does not belong to the player whose turn it is.
    WrongColor { source_occ: Occupancy, source: Position, desired_occ: Occupancy },
    /// A requested landing cell is already occupied.
    OccupiedTarget { target: Position },
    /// A requested hop is not a straight, exactly-two-apart move.
    IllegalTarget { source_occ: Occupancy, source: Position, target: Position },
    /// The hopped-over cell does not hold an opponent piece.
    IllegalJump {
        source_occ: Occupancy,
        source: Position,
        mid_occ: Occupancy,
        mid: Position,
        target: Position,
    },
}

} // verus!
