use vstd::prelude::*;

verus! {

/// Both coordinates of a board cell lie in the closed range [0, 9].
pub open spec fn in_bounds(x: int, y: int) -> bool {
    0 <= x <= 9 && 0 <= y <= 9
}

/// Two coordinate pairs lie on the same row or column, exactly two cells
/// apart: the geometric shape of a single jump.
pub open spec fn straight_two_apart(a: (int, int), b: (int, int)) -> bool {
    ||| a.1 == b.1 && (a.0 + 2 == b.0 || b.0 + 2 == a.0)
    ||| a.0 == b.0 && (a.1 + 2 == b.1 || b.1 + 2 == a.1)
}

/// The cell halfway between two coordinate pairs. Meaningful only when the
/// pairs are straight and two apart; then it is the hopped-over cell.
pub open spec fn midpoint_of(a: (int, int), b: (int, int)) -> (int, int) {
    ((a.0 + b.0) / 2, (a.1 + b.1) / 2)
}

/// A validated 2D board coordinate. Values built through the public
/// constructors always satisfy `valid`.
#[derive(Clone, Copy, Debug, Hash, PartialEq, Eq, Structural)]
pub struct Position {
    x: u8,
    y: u8,
}

impl View for Position {
    type V = (int, int);

    closed spec fn view(&self) -> (int, int) {
        (self.x as int, self.y as int)
    }
}

impl Position {
    /// Both coordinates are on the board.
    pub open spec fn valid(self) -> bool {
        in_bounds(self@.0, self@.1)
    }

    /// The cell between `self` and `other` when the two are straight and two
    /// apart, and nothing otherwise. `lemma_midpoint_characterization` relates
    /// this definition to `straight_two_apart` and `midpoint_of`.
    pub closed spec fn spec_midpoint(self, other: Position) -> Option<Position> {
        if self.y == other.y && (self.x + 2 == other.x || other.x + 2 == self.x) {
            Some(Position { x: ((self.x + other.x) / 2) as u8, y: self.y })
        } else if self.x == other.x && (self.y + 2 == other.y || other.y + 2 == self.y) {
            Some(Position { x: self.x, y: ((self.y + other.y) / 2) as u8 })
        } else {
            None
        }
    }

    /// Succeeds exactly when both coordinates are in [0, 9].
    pub fn new(x: u8, y: u8) -> (r: Option<Position>)
        ensures
            r is Some <==> (x <= 9 && y <= 9),
            r matches Some(p) ==> p@ == (x as int, y as int) && p.valid(),
    {
        if x <= 9 && y <= 9 {
            Some(Position { x, y })
        } else {
            None
        }
    }

    pub fn x(&self) -> (r: u8)
        ensures
            r as int == self@.0,
    {
        self.x
    }

    pub fn y(&self) -> (r: u8)
        ensures
            r as int == self@.1,
    {
        self.y
    }

    /// Bounds-checked mutation of the x coordinate. On success the previous
    /// x coordinate is returned; out-of-range values are rejected and leave
    /// the position unchanged.
    pub fn set_x(&mut self, new_x: u8) -> (r: Option<u8>)
        ensures
            new_x <= 9 ==> (r matches Some(prev) && prev as int == old(self)@.0
                && final(self)@ == (new_x as int, old(self)@.1)),
            new_x > 9 ==> r is None && *final(self) == *old(self),
            old(self).valid() ==> final(self).valid(),
    {
        if new_x <= 9 {
            let prev = self.x;
            self.x = new_x;
            Some(prev)
        } else {
            None
        }
    }

    /// Bounds-checked mutation of the y coordinate. On success the previous
    /// y coordinate is returned; out-of-range values are rejected and leave
    /// the position unchanged.
    pub fn set_y(&mut self, new_y: u8) -> (r: Option<u8>)
        ensures
            new_y <= 9 ==> (r matches Some(prev) && prev as int == old(self)@.1
                && final(self)@ == (old(self)@.0, new_y as int)),
            new_y > 9 ==> r is None && *final(self) == *old(self),
            old(self).valid() ==> final(self).valid(),
    {
        if new_y <= 9 {
            let prev = self.y;
            self.y = new_y;
            Some(prev)
        } else {
            None
        }
    }

    /// The cell hopped over by a jump from `self` to `other`: returned exactly
    /// when the two positions are on one row or column and two cells apart.
    pub fn biadjacency(&self, other: Position) -> (r: Option<Position>)
        ensures
            r == self.spec_midpoint(other),
    {
        if self.y == other.y && self.x < other.x && other.x - self.x == 2 {
            Some(Position { x: self.x + 1, y: self.y })
        } else if self.y == other.y && other.x < self.x && self.x - other.x == 2 {
            Some(Position { x: other.x + 1, y: self.y })
        } else if self.x == other.x && self.y < other.y && other.y - self.y == 2 {
            Some(Position { x: self.x, y: self.y + 1 })
        } else if self.x == other.x && other.y < self.y && self.y - other.y == 2 {
            Some(Position { x: self.x, y: other.y + 1 })
        } else {
            None
        }
    }
}

/// The law of jump geometry: a midpoint exists exactly when the two positions
/// are straight and two apart; it is then the halfway cell, and it lies on the
/// board whenever both endpoints do.
pub proof fn lemma_midpoint_characterization(a: Position, b: Position)
    ensures
        a.spec_midpoint(b) is Some <==> straight_two_apart(a@, b@),
        a.spec_midpoint(b) matches Some(m) ==> m@ == midpoint_of(a@, b@)
            && (a.valid() && b.valid() ==> m.valid()),
{
}

} // verus!
