//! Shared constants and plain value types for the simulation.
//!
//! All lengths, coordinates and velocities are measured in hundredths of a
//! logical unit ("centiunits"), so that the play field of 640 x 480 logical
//! units spans `WIDTH` x `HEIGHT` below. Working in integer centiunits keeps
//! every quantity exact: a velocity of 1.2 units per tick is the integer 120.

use vstd::prelude::*;

verus! {

/// Number of centiunits in one logical unit.
pub const SCALE: i64 = 100;

/// Play-field width, in centiunits (640 logical units).
pub const WIDTH: i64 = 64000;

/// Play-field height, in centiunits (480 logical units).
pub const HEIGHT: i64 = 48000;

/// Vertical offset of the drawn board frame, in centiunits (100 logical units).
pub const VERTICAL_MARGIN: i64 = 10000;

/// Horizontal offset of the drawn board frame, in centiunits (150 logical units).
pub const HORIZONTAL_MARGIN: i64 = 15000;

/// Largest magnitude a sprite corner coordinate may take. Sprites are clamped
/// into the play field on every update, but a freshly constructed sprite may
/// stand anywhere in this band.
pub const POS_LIMIT: i64 = 1_000_000_000_000_000;

/// Largest magnitude a velocity component or a speed may take.
pub const VEL_LIMIT: i64 = 1_000_000_000_000;

/// Largest magnitude a bounce multiplier component may take (10000 logical
/// units per unit, far beyond any configured multiplier).
pub const MUL_LIMIT: i64 = 1_000_000;

/// The two halves of the arena; names the scoring player or a paddle's wall.
#[derive(Clone, Copy, Debug)]
pub enum Side {
    LEFT,
    RIGHT,
}

/// A 2D coordinate in centiunits.
#[derive(Clone, Copy, Debug)]
pub struct Point {
    pub x: i64,
    pub y: i64,
}

/// The logical keys the match controller reacts to; anything else a window
/// library might report is `Other` and is ignored.
#[derive(Clone, Copy, Debug)]
pub enum Key {
    W,
    S,
    Up,
    Down,
    Other,
}

/// Integer division that truncates toward zero, as the executable `/` on
/// signed machine integers does.
pub open spec fn div_trunc(a: int, b: int) -> int
    recommends
        b > 0,
{
    if a >= 0 {
        a / b
    } else {
        -((-a) / b)
    }
}

/// Restricts a velocity to the representable band `[-VEL_LIMIT, VEL_LIMIT]`.
pub open spec fn clamp_vel(v: int) -> int {
    if v < -VEL_LIMIT {
        -VEL_LIMIT as int
    } else if v > VEL_LIMIT {
        VEL_LIMIT as int
    } else {
        v
    }
}

} // verus!
