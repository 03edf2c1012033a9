use vstd::prelude::*;

use crate::block::Position;
use crate::{SCREEN_HEIGHT, SCREEN_WIDTH, UNIT_HEIGHT, UNIT_WIDTH};

verus! {

/// Horizontal pixel of the center of cell (x, _), the screen's center being 0.
pub open spec fn pixel_x(x: int) -> int {
    UNIT_WIDTH / 2 - SCREEN_WIDTH / 2 + x * UNIT_WIDTH
}

/// Vertical pixel of the center of cell (_, y), the screen's center being 0.
pub open spec fn pixel_y(y: int) -> int {
    UNIT_HEIGHT / 2 - SCREEN_HEIGHT / 2 + y * UNIT_HEIGHT
}

/// The pixel at the center of cell `pos`, as (horizontal, vertical).
pub fn pixel_center(pos: Position) -> (r: (i32, i32))
    requires
        i32::MIN <= pixel_x(pos.x as int) <= i32::MAX,
        i32::MIN <= pixel_y(pos.y as int) <= i32::MAX,
    ensures
        r.0 == pixel_x(pos.x as int),
        r.1 == pixel_y(pos.y as int),
{
    let origin_x: i64 = (UNIT_WIDTH / 2 - SCREEN_WIDTH / 2) as i64;
    let origin_y: i64 = (UNIT_HEIGHT / 2 - SCREEN_HEIGHT / 2) as i64;
    let px: i64 = origin_x + (pos.x as i64) * (UNIT_WIDTH as i64);
    let py: i64 = origin_y + (pos.y as i64) * (UNIT_HEIGHT as i64);
    (px as i32, py as i32)
}

} // verus!
