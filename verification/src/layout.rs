use vstd::prelude::*;
use crate::board::in_bounds;

verus! {

/// The side of a square, in pixels.
pub const SQUARE_SIZE: i64 = 50;

/// The side of the whole board, in pixels.
pub const BOARD_EXTENT: i64 = 400;

/// The square under the pixel `pos`, given as (x, y) with the origin in
/// the top left corner: the row comes from y, the column from x. A pixel
/// outside the board is over no square.
pub open spec fn square_of_pixel(pos: (i64, i64)) -> Option<(usize, usize)> {
    if 0 <= pos.0 < BOARD_EXTENT && 0 <= pos.1 < BOARD_EXTENT {
        Some(((pos.1 / SQUARE_SIZE) as usize, (pos.0 / SQUARE_SIZE) as usize))
    } else {
        None
    }
}

/// The pixel (x, y) of the top left corner of the square `pos`.
pub open spec fn pixel_of_square(pos: (usize, usize)) -> (i64, i64) {
    ((pos.1 * SQUARE_SIZE) as i64, (pos.0 * SQUARE_SIZE) as i64)
}

/// The square under the pixel `pos`, if it is on the board.
pub fn square_at(pos: (i64, i64)) -> (square: Option<(usize, usize)>)
    ensures
        square == square_of_pixel(pos),
        square matches Some(c) ==> in_bounds(c),
{
    if pos.0 < 0 || pos.0 >= BOARD_EXTENT || pos.1 < 0 || pos.1 >= BOARD_EXTENT {
        return None;
    }
    let x: usize = pos.0 as usize;
    let y: usize = pos.1 as usize;
    Some((y / 50, x / 50))
}

/// The pixel at which the square `pos` is drawn: its top left corner.
pub fn square_origin(pos: (usize, usize)) -> (pixel: (i64, i64))
    requires
        in_bounds(pos),
    ensures
        pixel == pixel_of_square(pos),
        square_of_pixel(pixel) == Some(pos),
{
    let x: i64 = pos.1 as i64 * SQUARE_SIZE;
    let y: i64 = pos.0 as i64 * SQUARE_SIZE;
    (x, y)
}

/// Whether the square `pos` has the darker of the two colours of the
/// checkerboard: the squares whose row and column add up to an odd number.
pub fn is_shaded(pos: (usize, usize)) -> (shaded: bool)
    requires
        in_bounds(pos),
    ensures
        shaded == ((pos.0 + pos.1) % 2 == 1),
{
    (pos.0 + pos.1) % 2 == 1
}

} // verus!
