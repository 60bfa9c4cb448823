use vstd::prelude::*;

verus! {

/// What a single board cell holds: a white piece, a black piece, or nothing.
#[derive(Clone, Copy, Debug, Hash, PartialEq, Eq, Structural)]
pub enum Occupancy {
    White,
    Black,
    Empty,
}

/// The piece colour captured by `occ` when `occ` jumps: white captures black
/// and black captures white. `Empty` has no opponent and is mapped to itself.
pub open spec fn opponent(occ: Occupancy) -> Occupancy {
    match occ {
        Occupancy::White => Occupancy::Black,
        Occupancy::Black => Occupancy::White,
        Occupancy::Empty => Occupancy::Empty,
    }
}

impl Occupancy {
    pub fn is_empty(&self) -> (r: bool)
        ensures
            r == (*self == Occupancy::Empty),
    {
        *self == Occupancy::Empty
    }

    pub fn is_occupied(&self) -> (r: bool)
        ensures
            r == (*self != Occupancy::Empty),
    {
        *self != Occupancy::Empty
    }

    pub fn is_white(&self) -> (r: bool)
        ensures
            r == (*self == Occupancy::White),
    {
        *self == Occupancy::White
    }

    pub fn is_nonwhite(&self) -> (r: bool)
        ensures
            r == (*self != Occupancy::White),
    {
        *self != Occupancy::White
    }

    pub fn is_black(&self) -> (r: bool)
        ensures
            r == (*self == Occupancy::Black),
    {
        *self == Occupancy::Black
    }

    pub fn is_nonblack(&self) -> (r: bool)
        ensures
            r == (*self != Occupancy::Black),
    {
        *self != Occupancy::Black
    }
}

} // verus!
