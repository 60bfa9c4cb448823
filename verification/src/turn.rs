//! Compile-time turn typing: `White` and `Black` are zero-sized tag types,
//! and the `Turn` trait maps each tag to the piece colour that may move and to
//! the tag of the following turn. The type system itself then checks that a
//! successful ply always hands play to the opposite colour.

use vstd::prelude::*;

use crate::occupancy::Occupancy;

verus! {

/// Tag for "black to move".
#[derive(Clone, Copy, Debug, Hash, PartialEq, Eq)]
pub struct Black;

/// Tag for "white to move".
#[derive(Clone, Copy, Debug, Hash, PartialEq, Eq)]
pub struct White;

/// A turn tag: the colour whose move it is, and the tag that follows it.
/// (The tag of the following turn is itself a `Turn`, but stating that bound
/// here would make the two implementations below mutually dependent, which
/// the verifier rejects; functions that walk to the next turn state the bound
/// `Tn::Next: Turn` themselves.)
pub trait Turn: Sized {
    /// The tag of the turn after this one.
    type Next;

    /// The piece colour that may legally move during this turn.
    spec fn piece() -> Occupancy;

    /// Executable twin of `piece`.
    fn piece_type() -> (r: Occupancy)
        ensures
            r == Self::piece(),
    ;
}

impl Turn for Black {
    type Next = White;

    open spec fn piece() -> Occupancy {
        Occupancy::Black
    }

    fn piece_type() -> (r: Occupancy) {
        Occupancy::Black
    }
}

impl Turn for White {
    type Next = Black;

    open spec fn piece() -> Occupancy {
        Occupancy::White
    }

    fn piece_type() -> (r: Occupancy) {
        Occupancy::White
    }
}

} // verus!
