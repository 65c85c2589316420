use vstd::prelude::*;
use crate::board::{Grid, in_bounds, occupant};
use crate::game::GameView;
use crate::layout::{pixel_of_square, square_of_pixel};
use crate::pieces::horse::{at_offset, is_leap, leap_legal};
use crate::pieces::piece::{Piece, Team, held_by, legal_destination, legal_destinations};
use crate::pieces::slide::{is_direction, is_ray_step, ray_cell, slide_legal};

verus! {

/// A square that a piece may move to is on the board and is not the square
/// the piece stands on.
pub proof fn lemma_destination_on_board(
    g: Grid,
    piece: Piece,
    origin: (usize, usize),
    dest: (usize, usize),
)
    requires
        legal_destination(g, piece, origin, dest),
    ensures
        in_bounds(origin),
        in_bounds(dest),
        dest != origin,
{
}

/// Every square on a list of the legal destinations of a piece is on the
/// board and is not the square the piece stands on.
pub proof fn lemma_listed_squares_are_legal(
    g: Grid,
    piece: Piece,
    origin: (usize, usize),
    positions: Seq<(usize, usize)>,
)
    requires
        positions.to_set() == legal_destinations(g, piece, origin),
    ensures
        forall|i: int|
            0 <= i < positions.len() ==> legal_destination(g, piece, origin, #[trigger] positions[i])
                && in_bounds(positions[i]) && positions[i] != origin,
{
    assert forall|i: int| 0 <= i < positions.len() implies legal_destination(
        g,
        piece,
        origin,
        #[trigger] positions[i],
    ) && in_bounds(positions[i]) && positions[i] != origin by {
        assert(positions.contains(positions[i]));
        assert(positions.to_set().contains(positions[i]));
        lemma_destination_on_board(g, piece, origin, positions[i]);
    }
}

/// A piece of the mover's own team on a ray blocks its square and every
/// square behind it: if such a piece stands `k` steps from `origin`, no
/// square `j >= k` steps away on that ray is a legal destination.
pub proof fn lemma_own_piece_blocks_ray(
    g: Grid,
    team: Team,
    diagonal: bool,
    origin: (usize, usize),
    sr: int,
    sc: int,
    k: int,
    j: int,
    dest: (usize, usize),
)
    requires
        is_direction(diagonal, sr, sc),
        1 <= k <= j,
        held_by(ray_cell(g, origin, sr, sc, k), team),
        is_ray_step(origin, sr, sc, j, dest),
    ensures
        !slide_legal(g, team, diagonal, origin, dest),
{
    if j > k {
        assert(ray_cell(g, origin, sr, sc, k) is Some);
    }
}

/// No square behind an occupied square is a legal destination: if any
/// piece stands `k` steps from `origin`, no square `j > k` steps away on
/// that ray can be moved to.
pub proof fn lemma_occupant_ends_ray(
    g: Grid,
    team: Team,
    diagonal: bool,
    origin: (usize, usize),
    sr: int,
    sc: int,
    k: int,
    j: int,
    dest: (usize, usize),
)
    requires
        is_direction(diagonal, sr, sc),
        1 <= k < j,
        ray_cell(g, origin, sr, sc, k) is Some,
        is_ray_step(origin, sr, sc, j, dest),
    ensures
        !slide_legal(g, team, diagonal, origin, dest),
{
}

/// The first occupant of a ray can be captured if it is of the other
/// team: if the squares less than `k` steps from `origin` are empty and a
/// piece of the other team stands on `dest`, `k` steps away, then `dest` is
/// a legal destination.
pub proof fn lemma_first_opponent_can_be_captured(
    g: Grid,
    team: Team,
    diagonal: bool,
    origin: (usize, usize),
    sr: int,
    sc: int,
    k: int,
    dest: (usize, usize),
)
    requires
        in_bounds(origin),
        in_bounds(dest),
        is_direction(diagonal, sr, sc),
        is_ray_step(origin, sr, sc, k, dest),
        forall|i: int| 1 <= i < k ==> (#[trigger] ray_cell(g, origin, sr, sc, i)) is None,
        occupant(g, dest) is Some,
        !held_by(occupant(g, dest), team),
    ensures
        slide_legal(g, team, diagonal, origin, dest),
{
}

/// In front of the first occupant of a ray a square is a legal destination
/// if and only if it is empty, and all of them are: if the squares less
/// than `k` steps from `origin` are empty, every square `j < k` steps
/// away on that ray can be moved to.
pub proof fn lemma_squares_before_first_occupant(
    g: Grid,
    team: Team,
    diagonal: bool,
    origin: (usize, usize),
    sr: int,
    sc: int,
    k: int,
    j: int,
    dest: (usize, usize),
)
    requires
        in_bounds(origin),
        in_bounds(dest),
        is_direction(diagonal, sr, sc),
        1 <= j < k,
        forall|i: int| 1 <= i < k ==> (#[trigger] ray_cell(g, origin, sr, sc, i)) is None,
        is_ray_step(origin, sr, sc, j, dest),
    ensures
        occupant(g, dest) is None,
        slide_legal(g, team, diagonal, origin, dest),
{
    assert(occupant(g, dest) == ray_cell(g, origin, sr, sc, j));
}

/// The leaps are exactly the eight offsets of one square one way and two
/// squares the other.
pub proof fn lemma_leap_is_one_of_eight_offsets(origin: (usize, usize), dest: (usize, usize))
    ensures
        is_leap(origin, dest) == (at_offset(origin, 1, 2, dest) || at_offset(origin, 2, 1, dest)
            || at_offset(origin, 1, -2, dest) || at_offset(origin, -1, -2, dest) || at_offset(
            origin,
            -1,
            2,
            dest,
        ) || at_offset(origin, 2, -1, dest) || at_offset(origin, -2, 1, dest) || at_offset(
            origin,
            -2,
            -1,
            dest,
        )),
{
}

/// Whether a leaping piece may move to a square depends on that square
/// alone: on two grids that agree on `dest`, the answer is the same.
pub proof fn lemma_leap_depends_on_destination_only(
    g1: Grid,
    g2: Grid,
    team: Team,
    origin: (usize, usize),
    dest: (usize, usize),
)
    requires
        occupant(g1, dest) == occupant(g2, dest),
    ensures
        leap_legal(g1, team, origin, dest) == leap_legal(g2, team, origin, dest),
{
}

/// Asking whether one square is a legal destination and looking it up in
/// the list of all legal destinations give the same answer.
pub proof fn lemma_valid_iff_listed(
    g: Grid,
    piece: Piece,
    origin: (usize, usize),
    dest: (usize, usize),
    positions: Seq<(usize, usize)>,
)
    requires
        positions.to_set() == legal_destinations(g, piece, origin),
    ensures
        positions.contains(dest) == legal_destinations(g, piece, origin).contains(dest),
        positions.contains(dest) == legal_destination(g, piece, origin, dest),
{
    assert(positions.to_set().contains(dest) == positions.contains(dest));
}

/// A click on a square while a piece is selected clears the selection,
/// whether the piece moved or not.
pub proof fn lemma_click_clears_selection(state: GameView, c: (usize, usize))
    requires
        state.selected is Some,
    ensures
        state.click_on(c).selected is None,
{
}

/// After selecting a piece and clicking on any square, nothing is
/// selected: from a state with nothing selected, a click on an occupied
/// square `first` followed by a click on `second` ends with nothing
/// selected.
pub proof fn lemma_click_pair_ends_idle(
    state: GameView,
    first: (usize, usize),
    second: (usize, usize),
)
    requires
        state.selected is None,
        occupant(state.board, first) is Some,
    ensures
        state.click_on(first).selected == Some(first),
        state.click_on(first).board == state.board,
        state.click_on(first).click_on(second).selected is None,
{
}

/// A click with the pointer outside the board changes nothing.
pub proof fn lemma_click_outside_is_ignored(state: GameView)
    requires
        square_of_pixel(state.pos) is None,
    ensures
        state.click() == state,
{
}

/// Clicks and drawing agree on where a square is: the pixel at which a
/// square is drawn lies on that square.
pub proof fn lemma_square_is_drawn_where_it_is_clicked(c: (usize, usize))
    requires
        in_bounds(c),
    ensures
        square_of_pixel(pixel_of_square(c)) == Some(c),
{
}

} // verus!
