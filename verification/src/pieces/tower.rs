use vstd::prelude::*;
use crate::board::{Board, in_bounds};
use crate::laws::lemma_listed_squares_are_legal;
use crate::pieces::piece::{Piece, Team, legal_destinations};
use crate::pieces::slide::walk_ray;
use crate::pieces::squares::contains_square;

verus! {

/// A piece that slides along its rank and its file.
#[derive(Clone, Copy, PartialEq, Eq, Structural, Debug)]
pub struct Tower {
    pub team: Team,
}

impl Tower {
    /// A tower of `team`.
    pub fn new(team: Team) -> (b: Tower)
        ensures
            b.team == team,
    {
        Tower { team }
    }

    /// The side this tower plays for.
    pub fn team(&self) -> (t: Team)
        ensures
            t == self.team,
    {
        self.team
    }

    /// Every square this tower may move to from `current_pos`, each once.
    pub fn valid_positions(&self, current_pos: (usize, usize), board: &Board) -> (positions: Vec<
        (usize, usize),
    >)
        requires
            in_bounds(current_pos),
        ensures
            positions@.no_duplicates(),
            positions@.to_set() == legal_destinations(board@, Piece::Tower(*self), current_pos),
            forall|i: int|
                0 <= i < positions@.len() ==> in_bounds(#[trigger] positions@[i]) && positions@[i]
                    != current_pos,
    {
        let mut positions: Vec<(usize, usize)> = Vec::new();
        walk_ray(board, self.team, current_pos, 1, 0, &mut positions);
        walk_ray(board, self.team, current_pos, -1, 0, &mut positions);
        walk_ray(board, self.team, current_pos, 0, 1, &mut positions);
        walk_ray(board, self.team, current_pos, 0, -1, &mut positions);
        assert(positions@.to_set() =~= legal_destinations(
            board@,
            Piece::Tower(*self),
            current_pos,
        ));
        proof {
            lemma_listed_squares_are_legal(board@, Piece::Tower(*self), current_pos, positions@);
        }
        positions
    }

    /// Whether `desired_pos` is among the squares this tower may move to
    /// from `current_pos`.
    pub fn is_position_valid(
        &self,
        current_pos: (usize, usize),
        desired_pos: (usize, usize),
        board: &Board,
    ) -> (valid: bool)
        requires
            in_bounds(current_pos),
        ensures
            valid == legal_destinations(board@, Piece::Tower(*self), current_pos).contains(
                desired_pos,
            ),
    {
        let positions = self.valid_positions(current_pos, board);
        contains_square(&positions, desired_pos)
    }
}

} // verus!
