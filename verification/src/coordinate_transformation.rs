//! Mapping from play-field coordinates to window coordinates: the play
//! field is drawn offset by the board margins.

use vstd::prelude::*;

use crate::commons::{HORIZONTAL_MARGIN, POS_LIMIT, VERTICAL_MARGIN};

verus! {

/// Window x-coordinate of a play-field x-coordinate.
pub fn transform_x(x: i64) -> (r: i64)
    requires
        -POS_LIMIT <= x <= POS_LIMIT,
    ensures
        r == x + HORIZONTAL_MARGIN,
{
    x + HORIZONTAL_MARGIN
}

/// Window y-coordinate of a play-field y-coordinate.
pub fn transform_y(y: i64) -> (r: i64)
    requires
        -POS_LIMIT <= y <= POS_LIMIT,
    ensures
        r == y + VERTICAL_MARGIN,
{
    y + VERTICAL_MARGIN
}

} // verus!
