use vstd::prelude::*;
use crate::board::{Board, Grid, empty_grid, in_bounds, occupant, place};
use crate::layout::{square_at, square_of_pixel};
use crate::moves::{execute, move_allowed, moved};
use crate::pieces::bishop::Bishop;
use crate::pieces::horse::Horse;
use crate::pieces::piece::{Piece, Team, legal_destinations};
use crate::pieces::squares::contains_square;
use crate::pieces::tower::Tower;

verus! {

/// What the player has selected.
pub enum Selection {
    /// Nothing is selected.
    Idle,
    /// The piece on `origin` is selected; `destinations` are the squares it
    /// may move to.
    Selected { origin: (usize, usize), destinations: Vec<(usize, usize)> },
}

/// The state of a game as the rules see it.
pub struct GameView {
    /// What stands where.
    pub board: Grid,
    /// The square of the selected piece, if one is selected.
    pub selected: Option<(usize, usize)>,
    /// The last known position of the pointer, in pixels.
    pub pos: (i64, i64),
}

impl GameView {
    /// The squares the selected piece may move to; none if nothing is
    /// selected.
    pub open spec fn destinations(self) -> Set<(usize, usize)> {
        match self.selected {
            Some(origin) => match occupant(self.board, origin) {
                Some(p) => legal_destinations(self.board, p, origin),
                None => Set::empty(),
            },
            None => Set::empty(),
        }
    }

    /// The state after a click on the square `c`. With nothing selected, a
    /// click on a piece selects it and a click on an empty square changes
    /// nothing. With a piece selected, the piece moves to `c` if it may, and
    /// the selection is cleared whether it moved or not.
    pub open spec fn click_on(self, c: (usize, usize)) -> GameView {
        match self.selected {
            None => if occupant(self.board, c) is Some {
                GameView { selected: Some(c), ..self }
            } else {
                self
            },
            Some(origin) => GameView {
                board: if self.destinations().contains(c) {
                    moved(self.board, origin, c)
                } else {
                    self.board
                },
                selected: None,
                pos: self.pos,
            },
        }
    }

    /// The state after a click at the pointer's position. A click outside
    /// the board changes nothing.
    pub open spec fn click(self) -> GameView {
        match square_of_pixel(self.pos) {
            Some(c) => self.click_on(c),
            None => self,
        }
    }
}

/// A game in progress: the board, the selection and the pointer.
pub struct Game {
    board: Board,
    selection: Selection,
    pos: (i64, i64),
}

impl View for Game {
    type V = GameView;

    closed spec fn view(&self) -> GameView {
        GameView {
            board: self.board@,
            selected: match self.selection {
                Selection::Idle => None,
                Selection::Selected { origin, .. } => Some(origin),
            },
            pos: self.pos,
        }
    }
}

impl Game {
    /// The selection is consistent with the board: a selected square is on
    /// the board and occupied, and the destinations kept with it are
    /// exactly those its occupant may move to, each once.
    pub closed spec fn wf(&self) -> bool {
        match self.selection {
            Selection::Idle => true,
            Selection::Selected { origin, destinations } => {
                &&& in_bounds(origin)
                &&& destinations@.no_duplicates()
                &&& match occupant(self.board@, origin) {
                    Some(p) => destinations@.to_set() == legal_destinations(
                        self.board@,
                        p,
                        origin,
                    ),
                    None => false,
                }
            },
        }
    }

    /// In a consistent game the selected square is on the board and occupied.
    pub proof fn lemma_selected_is_occupied(&self)
        requires
            self.wf(),
        ensures
            self@.selected matches Some(origin) ==> in_bounds(origin) && occupant(
                self@.board,
                origin,
            ) is Some,
    {
    }

    /// A game on an empty board, with nothing selected.
    pub fn new() -> (game: Game)
        ensures
            game.wf(),
            game@ == (GameView { board: empty_grid(), selected: None, pos: (0, 0) }),
    {
        Game { board: Board::new(), selection: Selection::Idle, pos: (0, 0) }
    }

    /// A game that starts from the placement on `board`, with nothing selected.
    pub fn with_board(board: Board) -> (game: Game)
        ensures
            game.wf(),
            game@ == (GameView { board: board@, selected: None, pos: (0, 0) }),
    {
        Game { board, selection: Selection::Idle, pos: (0, 0) }
    }

    /// Puts the opening pieces on the board: a green bishop on (3, 3), a
    /// black tower on (0, 0) and a green horse on (4, 4). Nothing else
    /// changes: a selected square stays selected, and the destinations kept
    /// with it are those of its occupant on the new board.
    pub fn init_pieces(&mut self)
        requires
            old(self).wf(),
        ensures
            final(self).wf(),
            final(self)@.selected == old(self)@.selected,
            final(self)@.pos == old(self)@.pos,
            final(self)@.board == place(
                place(
                    place(
                        old(self)@.board,
                        (3, 3),
                        Some(Piece::Bishop(Bishop { team: Team::Green })),
                    ),
                    (0, 0),
                    Some(Piece::Tower(Tower { team: Team::Black })),
                ),
                (4, 4),
                Some(Piece::Horse(Horse { team: Team::Green })),
            ),
    {
        proof {
            self.board.lemma_view_is_grid();
        }
        self.board.set((3, 3), Some(Piece::Bishop(Bishop::new(Team::Green))));
        self.board.set((0, 0), Some(Piece::Tower(Tower::new(Team::Black))));
        self.board.set((4, 4), Some(Piece::Horse(Horse::new(Team::Green))));
        match self.selected() {
            Some(origin) => {
                match self.board.get(origin) {
                    Some(piece) => {
                        let destinations = piece.valid_positions(origin, &self.board);
                        self.selection = Selection::Selected { origin, destinations };
                    },
                    None => {
                        assert(false);
                    },
                }
            },
            None => {},
        }
    }

    /// The board.
    pub fn board(&self) -> (board: &Board)
        ensures
            board@ == self@.board,
    {
        &self.board
    }

    /// The last position of the pointer that was recorded.
    pub fn pos(&self) -> (pos: (i64, i64))
        ensures
            pos == self@.pos,
    {
        self.pos
    }

    /// The selection as it is kept.
    pub fn selection(&self) -> (selection: &Selection)
        requires
            self.wf(),
        ensures
            match *selection {
                Selection::Idle => self@.selected is None,
                Selection::Selected { origin, destinations } => {
                    &&& self@.selected == Some(origin)
                    &&& destinations@.no_duplicates()
                    &&& destinations@.to_set() == self@.destinations()
                },
            },
    {
        &self.selection
    }

    /// The square of the selected piece, if one is selected.
    pub fn selected(&self) -> (origin: Option<(usize, usize)>)
        ensures
            origin == self@.selected,
    {
        match &self.selection {
            Selection::Idle => None,
            Selection::Selected { origin, .. } => Some(*origin),
        }
    }

    /// Whether a piece is selected.
    pub fn is_piece_selected(&self) -> (yes: bool)
        ensures
            yes == self@.selected is Some,
    {
        match &self.selection {
            Selection::Idle => false,
            Selection::Selected { .. } => true,
        }
    }

    /// The squares the selected piece may move to, each once; none if no
    /// piece is selected.
    pub fn valid_positions(&self) -> (positions: Option<&Vec<(usize, usize)>>)
        requires
            self.wf(),
        ensures
            positions is Some == self@.selected is Some,
            positions matches Some(list) ==> list@.no_duplicates() && list@.to_set()
                == self@.destinations(),
    {
        match &self.selection {
            Selection::Idle => None,
            Selection::Selected { destinations, .. } => Some(destinations),
        }
    }

    /// Records the position of the pointer, in pixels.
    pub fn set_pos(&mut self, pos: (i64, i64))
        ensures
            final(self)@ == (GameView { pos: pos, ..old(self)@ }),
            old(self).wf() ==> final(self).wf(),
    {
        self.pos = pos;
    }

    /// Handles a click on the square `c`.
    pub fn click_on(&mut self, c: (usize, usize))
        requires
            old(self).wf(),
            in_bounds(c),
        ensures
            final(self).wf(),
            final(self)@ == old(self)@.click_on(c),
    {
        let chosen: Option<bool> = match &self.selection {
            Selection::Idle => None,
            Selection::Selected { destinations, .. } => Some(contains_square(destinations, c)),
        };
        match chosen {
            Some(allowed) => {
                let origin = self.selected().unwrap();
                proof {
                    let p = occupant(self.board@, origin)->Some_0;
                    let list = self.selection->Selected_destinations@;
                    crate::laws::lemma_valid_iff_listed(self.board@, p, origin, c, list);
                    assert(allowed == self@.destinations().contains(c));
                    assert(allowed == move_allowed(self.board@, origin, c));
                }
                self.selection = Selection::Idle;
                if allowed {
                    execute(&mut self.board, origin, c);
                }
            },
            None => {
                match self.board.get(c) {
                    Some(piece) => {
                        let destinations = piece.valid_positions(c, &self.board);
                        self.selection = Selection::Selected { origin: c, destinations };
                    },
                    None => {},
                }
            },
        }
    }

    /// Handles a release of the pointer's button at its last recorded
    /// position: a click on the square under it, or nothing if the pointer
    /// is outside the board.
    pub fn click(&mut self)
        requires
            old(self).wf(),
        ensures
            final(self).wf(),
            final(self)@ == old(self)@.click(),
            square_of_pixel(old(self)@.pos) is None ==> *final(self) == *old(self),
            old(self)@.selected is Some && square_of_pixel(old(self)@.pos) is Some
                ==> final(self)@.selected is None,
    {
        match square_at(self.pos) {
            Some(c) => self.click_on(c),
            None => {},
        }
    }
}

} // verus!
