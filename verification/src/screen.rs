//! What the game looks like: where on the screen a cell is drawn, and the
//! colour behind the field in each phase. Drawing itself is left to the
//! caller.

use crate::direction::GameState;
use crate::grid::DOT_SIZE_IN_PX;
use crate::point::Point;
use vstd::prelude::*;

verus! {

/// Whether the square of `p` has pixel coordinates that fit in `i32`.
pub open spec fn drawable(p: Point) -> bool {
    &&& i32::MIN <= p.0 * DOT_SIZE_IN_PX <= i32::MAX
    &&& i32::MIN <= p.1 * DOT_SIZE_IN_PX <= i32::MAX
}

/// The colour behind the field, as red, green and blue.
pub open spec fn backdrop(state: GameState) -> (u8, u8, u8) {
    match state {
        GameState::Playing => (0u8, 0u8, 0u8),
        GameState::Paused => (30u8, 30u8, 30u8),
        GameState::Over => (30u8, 0u8, 0u8),
    }
}

/// The square that shows cell `point`: the pixel coordinates of its top
/// left corner, then its width and height.
pub fn dot_rect(point: &Point) -> (rect: (i32, i32, u32, u32))
    requires
        drawable(*point),
    ensures
        rect.0 == point.0 * DOT_SIZE_IN_PX,
        rect.1 == point.1 * DOT_SIZE_IN_PX,
        rect.2 == DOT_SIZE_IN_PX,
        rect.3 == DOT_SIZE_IN_PX,
{
    let Point(x, y) = *point;
    (x * DOT_SIZE_IN_PX as i32, y * DOT_SIZE_IN_PX as i32, DOT_SIZE_IN_PX, DOT_SIZE_IN_PX)
}

/// The colour behind the field in phase `state`, as red, green and blue:
/// black while playing, grey while paused, dark red when the game is over.
pub fn background_color(state: &GameState) -> (rgb: (u8, u8, u8))
    ensures
        rgb == backdrop(*state),
{
    match state {
        GameState::Playing => (0, 0, 0),
        GameState::Paused => (30, 30, 30),
        GameState::Over => (30, 0, 0),
    }
}

} // verus!
