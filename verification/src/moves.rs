use vstd::prelude::*;
use crate::board::{Board, Grid, in_bounds, occupant, place};
use crate::pieces::piece::legal_destination;

verus! {

/// `origin` holds a piece, and that piece may move to `dest`.
pub open spec fn move_allowed(g: Grid, origin: (usize, usize), dest: (usize, usize)) -> bool {
    match occupant(g, origin) {
        Some(p) => legal_destination(g, p, origin, dest),
        None => false,
    }
}

/// The grid after the occupant of `origin` has moved to `dest`: it stands
/// on `dest`, in place of whatever stood there, and `origin` is empty.
pub open spec fn moved(g: Grid, origin: (usize, usize), dest: (usize, usize)) -> Grid {
    place(place(g, dest, occupant(g, origin)), origin, None)
}

/// Moves the occupant of `origin` to `destination`. An occupant of
/// `destination` is captured: it is overwritten and gone.
pub fn execute(board: &mut Board, origin: (usize, usize), destination: (usize, usize))
    requires
        move_allowed(old(board)@, origin, destination),
    ensures
        final(board)@ == moved(old(board)@, origin, destination),
        occupant(final(board)@, origin) is None,
        occupant(final(board)@, destination) == occupant(old(board)@, origin),
        forall|pos: (usize, usize)|
            in_bounds(pos) && pos != origin && pos != destination ==> #[trigger] occupant(
                final(board)@,
                pos,
            ) == occupant(old(board)@, pos),
{
    proof {
        board.lemma_view_is_grid();
        crate::laws::lemma_destination_on_board(
            board@,
            occupant(board@, origin)->Some_0,
            origin,
            destination,
        );
    }
    let mover = board.get(origin);
    board.set(destination, mover);
    board.set(origin, None);
}

} // verus!
