use core::marker::PhantomData;
use vstd::prelude::*;

use crate::board::{starting_board, Papamu};
use crate::errors::MoveError;
use crate::occupancy::{opponent, Occupancy};
use crate::position::Position;
use crate::rules::{
    chain_outcome, has_jump_over, next_subturn, scan_any_jump, turn_outcome, BoardView,
};
use crate::turn::{Black, Turn, White};

verus! {

/// One playable position seen from the side of `Tn`, the player whose move it
/// is. The tag is phantom: the state owns nothing but the board.
#[derive(Copy, Debug, Hash, PartialEq, Eq)]
pub struct GameState<Tn: Turn> {
    papamu: Papamu,
    phantom_turn: PhantomData<Tn>,
}

impl<Tn: Turn> Clone for GameState<Tn> {
    /// Copying a position copies the whole board; two game values never share
    /// mutable state.
    fn clone(&self) -> (r: Self)
        ensures
            r == *self,
    {
        GameState { papamu: self.papamu, phantom_turn: PhantomData }
    }
}

impl<Tn: Turn> GameState<Tn> {
    /// The board of this position, as specifications see it.
    pub closed spec fn board(self) -> BoardView {
        self.papamu@
    }

    /// The board of this position.
    pub fn papamu(&self) -> (r: &Papamu)
        ensures
            r@ == self.board(),
    {
        &self.papamu
    }

    /// A position of this turn over a caller-supplied board, for example one
    /// with the customary starting pieces already removed.
    pub fn from_papamu(papamu: Papamu) -> (r: GameState<Tn>)
        ensures
            r.board() == papamu@,
    {
        GameState { papamu, phantom_turn: PhantomData }
    }

    /// Validates and applies one ply: a chain of jumps by a single piece of
    /// `Tn`'s colour from `source` landing on each element of `targets` in
    /// order. On success the resulting position belongs to the next turn; on
    /// failure this position is untouched (it is taken by shared reference)
    /// and the reported error is exactly the one `turn_outcome` names.
    pub fn next_turn(&self, source: Position, targets: &Vec<Position>) -> (r: Result<
        GameState<Tn::Next>,
        MoveError,
    >) where Tn::Next: Turn
        requires
            source.valid(),
            forall|k: int| 0 <= k < targets@.len() ==> (#[trigger] targets@[k]).valid(),
        ensures
            turn_outcome(
                self.board(),
                Tn::piece(),
                <Tn::Next as Turn>::piece(),
                source,
                targets@,
            ) matches Ok(b2) ==> r matches Ok(g2) && g2.board() == b2,
            turn_outcome(
                self.board(),
                Tn::piece(),
                <Tn::Next as Turn>::piece(),
                source,
                targets@,
            ) matches Err(e) ==> r matches Err(e2) && e2 == e,
    {
        let n = targets.len();
        if n == 0 {
            return Err(MoveError::NoTargets { source_occ: self.papamu.get(source), source });
        }
        let source_occ = self.papamu.get(source);
        if source_occ.is_empty() {
            return Err(MoveError::EmptySource { source });
        }
        let mover = Tn::piece_type();
        if source_occ != mover {
            return Err(MoveError::WrongColor { source_occ, source, desired_occ: mover });
        }
        let jumped = <Tn::Next as Turn>::piece_type();
        let mut board = self.papamu;
        let mut current = source;
        let mut i: usize = 0;
        proof {
            assert(targets@.skip(0) =~= targets@);
        }
        while i < n
            invariant
                n == targets@.len(),
                0 < n,
                i <= n,
                current.valid(),
                forall|k: int| 0 <= k < targets@.len() ==> (#[trigger] targets@[k]).valid(),
                mover == Tn::piece(),
                jumped == <Tn::Next as Turn>::piece(),
                mover != Occupancy::Empty,
                self.board()[source@] == mover,
                chain_outcome(self.board(), mover, jumped, source, targets@) == chain_outcome(
                    board@,
                    mover,
                    jumped,
                    current,
                    targets@.skip(i as int),
                ),
            decreases n - i,
        {
            let target = targets[i];
            proof {
                assert(targets@.skip(i as int)[0] == targets@[i as int]);
            }
            match next_subturn(&mut board, mover, jumped, current, target) {
                Ok(_) => {},
                Err(e) => {
                    return Err(e);
                },
            }
            proof {
                assert(targets@.skip(i as int).drop_first() =~= targets@.skip(i as int + 1));
            }
            current = target;
            i += 1;
        }
        proof {
            assert(targets@.skip(n as int) =~= Seq::<Position>::empty());
        }
        Ok(GameState { papamu: board, phantom_turn: PhantomData })
    }

    /// Decides whether the player to move has any legal single jump left
    /// anywhere on the board: a cell that starts a straight hop over an
    /// opponent piece into an empty cell.
    pub fn can_move(&self) -> (r: bool) where Tn::Next: Turn
        ensures
            r == has_jump_over(self.board(), <Tn::Next as Turn>::piece()),
    {
        scan_any_jump(&self.papamu, <Tn::Next as Turn>::piece_type())
    }
}

impl<Tn: Turn> Default for GameState<Tn> {
    /// A fresh position over the default starting layout.
    fn default() -> (r: GameState<Tn>)
        ensures
            r.board() == starting_board(),
    {
        GameState { papamu: Papamu::default(), phantom_turn: PhantomData }
    }
}

/// The externally consumed handle: a board together with the turn marker,
/// encoded as which `GameState` variant is held. The only transition is a
/// successful `next_turn`, which always flips the variant.
#[derive(Clone, Copy, Debug, Hash, PartialEq, Eq)]
pub enum Game {
    White(GameState<White>),
    Black(GameState<Black>),
}

impl Game {
    /// The colour whose turn it is.
    pub open spec fn player(self) -> Occupancy {
        match self {
            Game::White(_) => Occupancy::White,
            Game::Black(_) => Occupancy::Black,
        }
    }

    /// The board of the current position, as specifications see it.
    pub open spec fn board(self) -> BoardView {
        match self {
            Game::White(g) => g.board(),
            Game::Black(g) => g.board(),
        }
    }

    /// A fresh game over the default layout, white to move.
    pub fn new_white() -> (r: Game)
        ensures
            r.player() == Occupancy::White,
            r.board() == starting_board(),
    {
        Game::White(GameState::default())
    }

    /// A fresh game over the default layout, black to move.
    pub fn new_black() -> (r: Game)
        ensures
            r.player() == Occupancy::Black,
            r.board() == starting_board(),
    {
        Game::Black(GameState::default())
    }

    /// The colour whose turn it is.
    pub fn current_player(&self) -> (r: Occupancy)
        ensures
            r == self.player(),
    {
        match self {
            Game::White(_) => Occupancy::White,
            Game::Black(_) => Occupancy::Black,
        }
    }

    /// The board of the current position.
    pub fn papamu(&self) -> (r: &Papamu)
        ensures
            r@ == self.board(),
    {
        match self {
            Game::White(g) => g.papamu(),
            Game::Black(g) => g.papamu(),
        }
    }

    /// The occupancy at one cell of the current position.
    pub fn occupancy_at(&self, ix: Position) -> (r: Occupancy)
        requires
            ix.valid(),
        ensures
            r == self.board()[ix@],
    {
        self.papamu().get(ix)
    }

    /// The white-to-move position, if it is white's turn.
    pub fn to_white(self) -> (r: Option<GameState<White>>)
        ensures
            self matches Game::White(g) ==> r == Some(g),
            self is Black ==> r is None,
    {
        match self {
            Game::White(g) => Some(g),
            Game::Black(_) => None,
        }
    }

    /// The black-to-move position, if it is black's turn.
    pub fn to_black(self) -> (r: Option<GameState<Black>>)
        ensures
            self matches Game::Black(g) ==> r == Some(g),
            self is White ==> r is None,
    {
        match self {
            Game::White(_) => None,
            Game::Black(g) => Some(g),
        }
    }

    /// A reference to the white-to-move position, if it is white's turn.
    pub fn as_white(&self) -> (r: Option<&GameState<White>>)
        ensures
            self matches Game::White(g) ==> (r matches Some(gr) && *gr == g),
            self is Black ==> r is None,
    {
        match self {
            Game::White(g) => Some(g),
            Game::Black(_) => None,
        }
    }

    /// A reference to the black-to-move position, if it is black's turn.
    pub fn as_black(&self) -> (r: Option<&GameState<Black>>)
        ensures
            self matches Game::Black(g) ==> (r matches Some(gr) && *gr == g),
            self is White ==> r is None,
    {
        match self {
            Game::White(_) => None,
            Game::Black(g) => Some(g),
        }
    }

    /// A mutable reference to the white-to-move position, if it is white's
    /// turn; whatever the caller writes through it, the game stays a
    /// white-to-move game.
    pub fn as_white_mut(&mut self) -> (r: Option<&mut GameState<White>>)
        ensures
            (*old(self)) matches Game::White(g) ==> r.is_some() && *r.unwrap() == g && *final(self) == Game::White(*final(r.unwrap())),
            (*old(self)) is Black ==> r is None && *final(self) == *old(self),
    {
        match self {
            Game::White(g) => Some(g),
            Game::Black(_) => None,
        }
    }

    /// A mutable reference to the black-to-move position, if it is black's
    /// turn; whatever the caller writes through it, the game stays a
    /// black-to-move game.
    pub fn as_black_mut(&mut self) -> (r: Option<&mut GameState<Black>>)
        ensures
            (*old(self)) matches Game::Black(g) ==> r.is_some() && *r.unwrap() == g && *final(self) == Game::Black(*final(r.unwrap())),
            (*old(self)) is White ==> r is None && *final(self) == *old(self),
    {
        match self {
            Game::White(_) => None,
            Game::Black(g) => Some(g),
        }
    }

    /// Applies `f` to a white-to-move position or `g` to a black-to-move one.
    pub fn by_color<R, F: FnOnce(GameState<White>) -> R, G: FnOnce(GameState<Black>) -> R>(
        self,
        f: F,
        g: G,
    ) -> (r: R)
        requires
            self matches Game::White(gs) ==> call_requires(f, (gs,)),
            self matches Game::Black(gs) ==> call_requires(g, (gs,)),
        ensures
            self matches Game::White(gs) ==> call_ensures(f, (gs,), r),
            self matches Game::Black(gs) ==> call_ensures(g, (gs,), r),
    {
        match self {
            Game::White(gs) => f(gs),
            Game::Black(gs) => g(gs),
        }
    }

    /// Applies `f` or `g` to a reference to the held position.
    pub fn by_color_ref<
        'a,
        R,
        F: FnOnce(&'a GameState<White>) -> R,
        G: FnOnce(&'a GameState<Black>) -> R,
    >(&'a self, f: F, g: G) -> (r: R)
        requires
            self matches Game::White(gs) ==> call_requires(f, (&gs,)),
            self matches Game::Black(gs) ==> call_requires(g, (&gs,)),
        ensures
            self matches Game::White(gs) ==> call_ensures(f, (&gs,), r),
            self matches Game::Black(gs) ==> call_ensures(g, (&gs,), r),
    {
        match self {
            Game::White(gs) => f(gs),
            Game::Black(gs) => g(gs),
        }
    }

    /// Validates and atomically applies one ply for the player to move; on
    /// success the board is replaced and the turn flips to the opponent, on
    /// failure the game is left exactly as it was and the specific error is
    /// reported.
    pub fn next_turn(&mut self, source: Position, targets: &Vec<Position>) -> (r: Result<
        (),
        MoveError,
    >)
        requires
            source.valid(),
            forall|k: int| 0 <= k < targets@.len() ==> (#[trigger] targets@[k]).valid(),
        ensures
            turn_outcome(
                old(self).board(),
                old(self).player(),
                opponent(old(self).player()),
                source,
                targets@,
            ) matches Ok(b2) ==> r is Ok && final(self).board() == b2 && final(self).player()
                == opponent(old(self).player()),
            turn_outcome(
                old(self).board(),
                old(self).player(),
                opponent(old(self).player()),
                source,
                targets@,
            ) matches Err(e) ==> r matches Err(e2) && e2 == e && *final(self) == *old(self),
    {
        match *self {
            Game::White(game) => match game.next_turn(source, targets) {
                Ok(g2) => {
                    *self = Game::Black(g2);
                    Ok(())
                },
                Err(e) => Err(e),
            },
            Game::Black(game) => match game.next_turn(source, targets) {
                Ok(g2) => {
                    *self = Game::White(g2);
                    Ok(())
                },
                Err(e) => Err(e),
            },
        }
    }

    /// Decides whether the player to move still has any legal single jump.
    pub fn can_move(&self) -> (r: bool)
        ensures
            r == has_jump_over(self.board(), opponent(self.player())),
    {
        match self {
            Game::White(g) => g.can_move(),
            Game::Black(g) => g.can_move(),
        }
    }
}

} // verus!
