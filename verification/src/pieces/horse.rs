use vstd::prelude::*;
use crate::board::{Board, Grid, in_bounds, occupant};
use crate::laws::lemma_listed_squares_are_legal;
use crate::pieces::piece::{Piece, Team, held_by, legal_destinations};
use crate::pieces::squares::{contains_square, magnitude, push_new};

verus! {

/// A piece that leaps: two squares one way and one square the other.
#[derive(Clone, Copy, PartialEq, Eq, Structural, Debug)]
pub struct Horse {
    pub team: Team,
}

/// `dest` is a leap away from `origin`: one of the eight offsets
/// (+-1, +-2) and (+-2, +-1).
pub open spec fn is_leap(origin: (usize, usize), dest: (usize, usize)) -> bool {
    let dr = magnitude(dest.0 - origin.0);
    let dc = magnitude(dest.1 - origin.1);
    (dr == 1 && dc == 2) || (dr == 2 && dc == 1)
}

/// Whether a leaping piece of `team` on `origin` may move to `dest`: a leap
/// away, on the board, and not held by a piece of `team`. Nothing else on
/// the board matters.
pub open spec fn leap_legal(g: Grid, team: Team, origin: (usize, usize), dest: (usize, usize)) -> bool {
    &&& in_bounds(origin)
    &&& in_bounds(dest)
    &&& is_leap(origin, dest)
    &&& !held_by(occupant(g, dest), team)
}

/// `dest` is the square at the offset (`dr`, `dc`) from `origin`.
pub open spec fn at_offset(origin: (usize, usize), dr: int, dc: int, dest: (usize, usize)) -> bool {
    dest.0 == origin.0 + dr && dest.1 == origin.1 + dc
}

/// The square at the offset (`dr`, `dc`) from `origin`, if it is on the board.
pub open spec fn leap_target(origin: (usize, usize), dr: int, dc: int) -> Option<(usize, usize)> {
    let r = origin.0 + dr;
    let c = origin.1 + dc;
    if 0 <= r < 8 && 0 <= c < 8 {
        Some((r as usize, c as usize))
    } else {
        None
    }
}

/// Appends the square at the offset (`dr`, `dc`) from `origin` if it is on
/// the board and holds no piece of `team`.
pub fn try_leap(
    board: &Board,
    team: Team,
    origin: (usize, usize),
    dr: i8,
    dc: i8,
    out: &mut Vec<(usize, usize)>,
)
    requires
        in_bounds(origin),
        old(out)@.no_duplicates(),
        forall|d: (usize, usize)| #[trigger]
            old(out)@.contains(d) ==> !at_offset(origin, dr as int, dc as int, d),
    ensures
        final(out)@ == match leap_target(origin, dr as int, dc as int) {
            Some(target) => if held_by(occupant(board@, target), team) {
                old(out)@
            } else {
                old(out)@.push(target)
            },
            None => old(out)@,
        },
        final(out)@.no_duplicates(),
        forall|d: (usize, usize)|
            #[trigger] final(out)@.contains(d) <==> old(out)@.contains(d) || (at_offset(
                origin,
                dr as int,
                dc as int,
                d,
            ) && in_bounds(d) && !held_by(occupant(board@, d), team)),
{
    let r: i64 = origin.0 as i64 + dr as i64;
    let c: i64 = origin.1 as i64 + dc as i64;
    if r < 0 || r > 7 || c < 0 || c > 7 {
        return ;
    }
    let pos = (r as usize, c as usize);
    match board.get(pos) {
        Some(p) => {
            if p.team() != team {
                push_new(out, pos);
            }
        },
        None => {
            push_new(out, pos);
        },
    }
}

impl Horse {
    /// A horse of `team`.
    pub fn new(team: Team) -> (h: Horse)
        ensures
            h.team == team,
    {
        Horse { team }
    }

    /// The side this horse plays for.
    pub fn team(&self) -> (t: Team)
        ensures
            t == self.team,
    {
        self.team
    }

    /// Every square this horse may move to from `current_pos`, each once.
    pub fn valid_positions(&self, current_pos: (usize, usize), board: &Board) -> (positions: Vec<
        (usize, usize),
    >)
        requires
            in_bounds(current_pos),
        ensures
            positions@.no_duplicates(),
            positions@.to_set() == legal_destinations(board@, Piece::Horse(*self), current_pos),
            forall|i: int|
                0 <= i < positions@.len() ==> in_bounds(#[trigger] positions@[i]) && positions@[i]
                    != current_pos,
    {
        let mut positions: Vec<(usize, usize)> = Vec::new();
        try_leap(board, self.team, current_pos, 1, 2, &mut positions);
        try_leap(board, self.team, current_pos, 2, 1, &mut positions);
        try_leap(board, self.team, current_pos, 1, -2, &mut positions);
        try_leap(board, self.team, current_pos, -1, -2, &mut positions);
        try_leap(board, self.team, current_pos, -1, 2, &mut positions);
        try_leap(board, self.team, current_pos, 2, -1, &mut positions);
        try_leap(board, self.team, current_pos, -2, 1, &mut positions);
        try_leap(board, self.team, current_pos, -2, -1, &mut positions);
        assert(positions@.to_set() =~= legal_destinations(
            board@,
            Piece::Horse(*self),
            current_pos,
        ));
        proof {
            lemma_listed_squares_are_legal(board@, Piece::Horse(*self), current_pos, positions@);
        }
        positions
    }

    /// Whether `desired_pos` is among the squares this horse may move to
    /// from `current_pos`.
    pub fn is_position_valid(
        &self,
        current_pos: (usize, usize),
        desired_pos: (usize, usize),
        board: &Board,
    ) -> (valid: bool)
        requires
            in_bounds(current_pos),
        ensures
            valid == legal_destinations(board@, Piece::Horse(*self), current_pos).contains(
                desired_pos,
            ),
    {
        let positions = self.valid_positions(current_pos, board);
        contains_square(&positions, desired_pos)
    }
}

} // verus!
