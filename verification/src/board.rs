use vstd::prelude::*;
use crate::pieces::piece::Piece;

verus! {

/// The mathematical model of a board: rows of squares, top row first.
pub type Grid = Seq<Seq<Option<Piece>>>;

/// A coordinate is a (row, column) pair; it is on the board when both are below 8.
pub open spec fn in_bounds(pos: (usize, usize)) -> bool {
    pos.0 < 8 && pos.1 < 8
}

/// A grid has the shape of a board: 8 rows of 8 squares.
pub open spec fn is_grid(g: Grid) -> bool {
    &&& g.len() == 8
    &&& forall|r: int| 0 <= r < 8 ==> (#[trigger] g[r]).len() == 8
}

/// The grid with no occupant at all.
pub open spec fn empty_grid() -> Grid {
    Seq::new(8, |r: int| Seq::new(8, |c: int| None::<Piece>))
}

/// What stands on row `r`, column `c`.
pub open spec fn cell(g: Grid, r: int, c: int) -> Option<Piece> {
    g[r][c]
}

/// What stands on the square `pos`.
pub open spec fn occupant(g: Grid, pos: (usize, usize)) -> Option<Piece> {
    cell(g, pos.0 as int, pos.1 as int)
}

/// The grid `g` with the content of `pos` replaced by `v`.
pub open spec fn place(g: Grid, pos: (usize, usize), v: Option<Piece>) -> Grid {
    g.update(pos.0 as int, g[pos.0 as int].update(pos.1 as int, v))
}

/// An 8x8 board of optional occupants, stored row by row.
pub struct Board {
    cells: [Option<Piece>; 64],
}

impl View for Board {
    type V = Grid;

    closed spec fn view(&self) -> Grid {
        Seq::new(8, |r: int| Seq::new(8, |c: int| self.cells@[r * 8 + c]))
    }
}

impl Board {
    /// The model of every board has the shape of a board.
    pub proof fn lemma_view_is_grid(&self)
        ensures
            is_grid(self@),
    {
    }

    /// An empty board.
    pub fn new() -> (b: Board)
        ensures
            b@ == empty_grid(),
    {
        let b = Board { cells: [None; 64] };
        assert(b@ =~~= empty_grid());
        b
    }

    /// Whether `pos` names a square of the board.
    pub fn is_in_bounds(pos: (usize, usize)) -> (r: bool)
        ensures
            r == in_bounds(pos),
    {
        pos.0 < 8 && pos.1 < 8
    }

    /// The occupant of `pos`, if any.
    pub fn get(&self, pos: (usize, usize)) -> (r: Option<Piece>)
        requires
            in_bounds(pos),
        ensures
            r == occupant(self@, pos),
    {
        self.cells[pos.0 * 8 + pos.1]
    }

    /// Replaces the content of `pos` and leaves every other square as it was.
    pub fn set(&mut self, pos: (usize, usize), v: Option<Piece>)
        requires
            in_bounds(pos),
        ensures
            final(self)@ == place(old(self)@, pos, v),
    {
        self.cells[pos.0 * 8 + pos.1] = v;
        assert(self@ =~~= place(old(self)@, pos, v));
    }
}

} // verus!
