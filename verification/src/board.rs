//! The drawn frame around the play field.

use vstd::prelude::*;

use crate::commons::{HORIZONTAL_MARGIN, POS_LIMIT, VERTICAL_MARGIN};

verus! {

/// Position and extent of the board frame, in centiunits.
#[derive(Clone, Copy, Debug)]
pub struct Board {
    pub x: i64,
    pub y: i64,
    pub width: i64,
    pub height: i64,
}

impl Board {
    /// All four fields stay in the representable coordinate band.
    pub open spec fn wf(self) -> bool {
        &&& -POS_LIMIT <= self.x <= POS_LIMIT
        &&& -POS_LIMIT <= self.y <= POS_LIMIT
        &&& -POS_LIMIT <= self.width <= POS_LIMIT
        &&& -POS_LIMIT <= self.height <= POS_LIMIT
    }

    /// The frame's four border lines, each as `[x1, y1, x2, y2]`, in the
    /// order top, right, left, bottom.
    pub fn get_lines(&self) -> (lines: [[i64; 4]; 4])
        requires
            self.wf(),
        ensures
            lines[0][0] == self.x && lines[0][1] == self.y,
            lines[0][2] == self.width + HORIZONTAL_MARGIN && lines[0][3] == self.y,
            lines[1][0] == self.width + HORIZONTAL_MARGIN && lines[1][1] == self.y,
            lines[1][2] == self.width + HORIZONTAL_MARGIN && lines[1][3] == self.height
                + VERTICAL_MARGIN,
            lines[2][0] == self.x && lines[2][1] == self.y,
            lines[2][2] == self.x && lines[2][3] == self.height + VERTICAL_MARGIN,
            lines[3][0] == self.x && lines[3][1] == self.height + VERTICAL_MARGIN,
            lines[3][2] == self.width + HORIZONTAL_MARGIN && lines[3][3] == self.height
                + VERTICAL_MARGIN,
    {
        let x1 = self.x;
        let y1 = self.y;
        let x2 = self.width + HORIZONTAL_MARGIN;
        let y2 = self.height + VERTICAL_MARGIN;

        [
            [x1, y1, x2, y1],
            [x2, y1, x2, y2],
            [x1, y1, x1, y2],
            [x1, y2, x2, y2],
        ]
    }
}

} // verus!
