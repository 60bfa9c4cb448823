use vstd::prelude::*;

use crate::occupancy::Occupancy;
use crate::position::{in_bounds, Position};

verus! {

/// The default starting layout: a full checkerboard with a black piece on
/// every cell whose coordinate sum is even and a white piece elsewhere.
pub open spec fn starting_board() -> Map<(int, int), Occupancy> {
    Map::new(
        |p: (int, int)| in_bounds(p.0, p.1),
        |p: (int, int)|
            if (p.0 + p.1) % 2 == 0 {
                Occupancy::Black
            } else {
                Occupancy::White
            },
    )
}

/// The colour of cell `j` of the starting layout, with cells numbered row by
/// row: cell (x, y) has number 10 * x + y.
spec fn starting_cell(j: int) -> Occupancy {
    if (j / 10 + j % 10) % 2 == 0 {
        Occupancy::Black
    } else {
        Occupancy::White
    }
}

/// The papamu: a fixed 10 x 10 grid of cell occupancies, viewed as a map from
/// in-bounds coordinate pairs to `Occupancy`. It owns no behaviour beyond
/// indexed reads and writes.
#[derive(Clone, Copy, Debug, Hash, PartialEq, Eq)]
pub struct Papamu {
    cells: [Occupancy; 100],
}

impl View for Papamu {
    type V = Map<(int, int), Occupancy>;

    closed spec fn view(&self) -> Map<(int, int), Occupancy> {
        Map::new(
            |p: (int, int)| in_bounds(p.0, p.1),
            |p: (int, int)| self.cells@[p.0 * 10 + p.1],
        )
    }
}

impl Papamu {
    /// Indexed read by raw coordinates.
    pub(crate) fn get_xy(&self, x: u8, y: u8) -> (r: Occupancy)
        requires
            x <= 9,
            y <= 9,
        ensures
            r == self@[(x as int, y as int)],
    {
        self.cells[(x as usize) * 10 + (y as usize)]
    }

    /// Indexed write by raw coordinates.
    pub(crate) fn set_xy(&mut self, x: u8, y: u8, occ: Occupancy)
        requires
            x <= 9,
            y <= 9,
        ensures
            final(self)@ == old(self)@.insert((x as int, y as int), occ),
    {
        self.cells[(x as usize) * 10 + (y as usize)] = occ;
        proof {
            assert(self@ =~= old(self)@.insert((x as int, y as int), occ)) by {
                assert forall|q: (int, int)|
                    in_bounds(q.0, q.1) && q != (x as int, y as int) implies self@[q] == old(
                    self,
                )@[q] by {
                    assert(q.0 * 10 + q.1 != (x as int) * 10 + (y as int));
                }
            }
        }
    }

    /// The occupancy at a position.
    pub fn get(&self, ix: Position) -> (r: Occupancy)
        requires
            ix.valid(),
        ensures
            r == self@[ix@],
    {
        self.get_xy(ix.x(), ix.y())
    }

    /// Replaces the occupancy at a position.
    pub fn set(&mut self, ix: Position, occ: Occupancy)
        requires
            ix.valid(),
        ensures
            final(self)@ == old(self)@.insert(ix@, occ),
    {
        self.set_xy(ix.x(), ix.y(), occ)
    }
}

impl Default for Papamu {
    /// The starting layout: every cell filled, black exactly on the cells
    /// whose coordinate sum is even.
    fn default() -> (r: Papamu)
        ensures
            r@ == starting_board(),
    {
        let mut cells = [Occupancy::White; 100];
        proof {
            // Mentioning the fill term instantiates vstd's axiom that every
            // element of a fill expression equals the filler.
            assert(cells == vstd::array::spec_array_fill_for_copy_type::<Occupancy, 100>(
                Occupancy::White,
            ));
        }
        let mut i: usize = 0;
        while i < 100
            invariant
                i <= 100,
                forall|j: int| 0 <= j < i ==> cells@[j] == starting_cell(j),
                forall|j: int| i <= j < 100 ==> cells@[j] == Occupancy::White,
            decreases 100 - i,
        {
            if (i / 10 + i % 10) % 2 == 0 {
                cells[i] = Occupancy::Black;
            }
            i += 1;
        }
        let r = Papamu { cells };
        proof {
            assert(r@ =~= starting_board()) by {
                assert forall|q: (int, int)| in_bounds(q.0, q.1)
                    implies r@[q] == starting_board()[q] by {
                    let j = q.0 * 10 + q.1;
                    assert(j / 10 == q.0 && j % 10 == q.1);
                    assert(r@[q] == starting_cell(j));
                }
            }
        }
        r
    }
}

} // verus!
