use vstd::prelude::*;
use crate::board::{Board, Grid, in_bounds};
use crate::pieces::bishop::Bishop;
use crate::pieces::horse::Horse;
use crate::pieces::tower::Tower;
use crate::pieces::slide::slide_legal;
use crate::pieces::horse::leap_legal;

verus! {

/// One of the two opposing sides.
#[derive(Clone, Copy, PartialEq, Eq, Structural, Debug)]
pub enum Team {
    Green,
    Black,
}

/// What a square holds when it is occupied: a piece of one of the three kinds.
#[derive(Clone, Copy, PartialEq, Eq, Structural, Debug)]
pub enum Piece {
    Bishop(Bishop),
    Horse(Horse),
    Tower(Tower),
}

/// Whether a square's content is a piece of `team`.
pub open spec fn held_by(content: Option<Piece>, team: Team) -> bool {
    match content {
        Some(p) => p.team() == team,
        None => false,
    }
}

/// Whether `piece`, standing on `origin`, may move to `dest` on the grid `g`.
pub open spec fn legal_destination(
    g: Grid,
    piece: Piece,
    origin: (usize, usize),
    dest: (usize, usize),
) -> bool {
    match piece {
        Piece::Bishop(b) => slide_legal(g, b.team, true, origin, dest),
        Piece::Horse(h) => leap_legal(g, h.team, origin, dest),
        Piece::Tower(t) => slide_legal(g, t.team, false, origin, dest),
    }
}

/// The set of squares that `piece`, standing on `origin`, may move to.
pub open spec fn legal_destinations(g: Grid, piece: Piece, origin: (usize, usize)) -> Set<
    (usize, usize),
> {
    Set::new(|dest: (usize, usize)| legal_destination(g, piece, origin, dest))
}

/// The name under which the image of `piece` is kept.
pub open spec fn texture_name(piece: Piece) -> Seq<char> {
    match piece {
        Piece::Bishop(b) => match b.team {
            Team::Green => "bishop_green"@,
            Team::Black => "bishop_black"@,
        },
        Piece::Horse(h) => match h.team {
            Team::Green => "horse_green"@,
            Team::Black => "horse_black"@,
        },
        Piece::Tower(t) => match t.team {
            Team::Green => "tower_green"@,
            Team::Black => "tower_black"@,
        },
    }
}

impl Piece {
    pub open spec fn spec_team(&self) -> Team {
        match self {
            Piece::Bishop(b) => b.team,
            Piece::Horse(h) => h.team,
            Piece::Tower(t) => t.team,
        }
    }

    /// The side this piece plays for.
    #[verifier::when_used_as_spec(spec_team)]
    pub fn team(&self) -> (t: Team)
        ensures
            t == self.spec_team(),
    {
        match self {
            Piece::Bishop(b) => b.team(),
            Piece::Horse(h) => h.team(),
            Piece::Tower(t) => t.team(),
        }
    }

    /// The key of this piece's image in a table of textures.
    pub fn texture_key(&self) -> (key: &'static str)
        ensures
            key@ == texture_name(*self),
    {
        match self {
            Piece::Bishop(b) => match b.team {
                Team::Green => "bishop_green",
                Team::Black => "bishop_black",
            },
            Piece::Horse(h) => match h.team {
                Team::Green => "horse_green",
                Team::Black => "horse_black",
            },
            Piece::Tower(t) => match t.team {
                Team::Green => "tower_green",
                Team::Black => "tower_black",
            },
        }
    }

    /// Every square this piece may move to from `current_pos`, each once.
    pub fn valid_positions(&self, current_pos: (usize, usize), board: &Board) -> (positions: Vec<
        (usize, usize),
    >)
        requires
            in_bounds(current_pos),
        ensures
            positions@.no_duplicates(),
            positions@.to_set() == legal_destinations(board@, *self, current_pos),
            forall|i: int|
                0 <= i < positions@.len() ==> in_bounds(#[trigger] positions@[i]) && positions@[i]
                    != current_pos,
    {
        match self {
            Piece::Bishop(b) => b.valid_positions(current_pos, board),
            Piece::Horse(h) => h.valid_positions(current_pos, board),
            Piece::Tower(t) => t.valid_positions(current_pos, board),
        }
    }

    /// Whether `desired_pos` is among the squares this piece may move to
    /// from `current_pos`.
    pub fn is_position_valid(
        &self,
        current_pos: (usize, usize),
        desired_pos: (usize, usize),
        board: &Board,
    ) -> (valid: bool)
        requires
            in_bounds(current_pos),
        ensures
            valid == legal_destinations(board@, *self, current_pos).contains(desired_pos),
    {
        match self {
            Piece::Bishop(b) => b.is_position_valid(current_pos, desired_pos, board),
            Piece::Horse(h) => h.is_position_valid(current_pos, desired_pos, board),
            Piece::Tower(t) => t.is_position_valid(current_pos, desired_pos, board),
        }
    }
}

} // verus!
