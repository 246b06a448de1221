//! Axis-aligned rectangular game entity with position, size and velocity.
//!
//! A sprite is the one geometric object of the simulation: paddles and the
//! ball both wrap one. Its `update` advances the rectangle by its velocity and
//! then clamps it back into the play field, repositioning the whole rectangle
//! rather than merely stopping it, so a single large step can never leave a
//! sprite partially outside the arena.

use vstd::prelude::*;

use crate::commons::{div_trunc, clamp_vel, Point, Side, HEIGHT, MUL_LIMIT, POS_LIMIT, VEL_LIMIT,
    WIDTH};

verus! {

/// Where a sprite stands horizontally relative to the play field.
#[derive(Clone, Copy, Debug)]
pub enum HorizontalSpritePosition {
    Inside,
    Outside(Side),
}

pub struct Sprite {
    pub upper_left: Point,
    pub lower_right: Point,
    pub width: i64,
    pub height: i64,
    pub velocity: [i64; 2],
    pub speed: i64,
}

/// New low edge of an interval of length `size` that moved to `low` inside
/// `[0, bound]`: snapped to the nearer wall when it crossed one.
pub open spec fn clamped_low(low: int, size: int, bound: int) -> int {
    if low < 0 {
        0
    } else if low + size > bound {
        bound - size
    } else {
        low
    }
}

impl Sprite {
    /// The rectangle is consistently sized, no larger than the play field,
    /// and all magnitudes stay in the representable bands.
    pub open spec fn wf(self) -> bool {
        &&& self.lower_right.x == self.upper_left.x + self.width
        &&& self.lower_right.y == self.upper_left.y + self.height
        &&& 0 <= self.width <= WIDTH
        &&& 0 <= self.height <= HEIGHT
        &&& -POS_LIMIT <= self.upper_left.x <= POS_LIMIT
        &&& -POS_LIMIT <= self.upper_left.y <= POS_LIMIT
        &&& -VEL_LIMIT <= self.velocity[0] <= VEL_LIMIT
        &&& -VEL_LIMIT <= self.velocity[1] <= VEL_LIMIT
        &&& 0 <= self.speed <= VEL_LIMIT
    }

    /// The rectangle lies fully within `[0, WIDTH] x [0, HEIGHT]`.
    pub open spec fn in_play_area(self) -> bool {
        &&& 0 <= self.upper_left.x
        &&& self.lower_right.x <= WIDTH
        &&& 0 <= self.upper_left.y
        &&& self.lower_right.y <= HEIGHT
    }

    /// The state `update` leaves a well-formed sprite in: moved by its
    /// velocity on each axis independently, then clamped into the play field.
    pub open spec fn updated(self) -> Sprite {
        let ulx = clamped_low(self.upper_left.x + self.velocity[0], self.width as int, WIDTH as int);
        let uly = clamped_low(self.upper_left.y + self.velocity[1], self.height as int,
            HEIGHT as int);
        Sprite {
            upper_left: Point { x: ulx as i64, y: uly as i64 },
            lower_right: Point { x: (ulx + self.width) as i64, y: (uly + self.height) as i64 },
            ..self
        }
    }

    /// One axis of the collision test, seen from `self`: one of `other`'s
    /// vertical edges lies strictly between `self`'s.
    pub open spec fn spec_vertically_colliding(self, other: Sprite) -> bool {
        ||| (self.upper_left.y < other.lower_right.y && self.lower_right.y > other.lower_right.y)
        ||| (self.upper_left.y < other.upper_left.y && self.lower_right.y > other.upper_left.y)
    }

    pub open spec fn spec_horizontally_colliding(self, other: Sprite) -> bool {
        ||| (self.upper_left.x < other.lower_right.x && self.lower_right.x > other.lower_right.x)
        ||| (self.upper_left.x < other.upper_left.x && self.lower_right.x > other.upper_left.x)
    }

    /// The collision predicate: a collision is reported if either sprite's
    /// test against the other fires, which shields the test against
    /// asymmetric edge cases.
    pub open spec fn spec_colliding(self, other: Sprite) -> bool {
        ||| (self.spec_vertically_colliding(other) && self.spec_horizontally_colliding(other))
        ||| (other.spec_vertically_colliding(self) && other.spec_horizontally_colliding(self))
    }

    /// Horizontal verdict of `is_x_inside_of_play_area`.
    pub open spec fn spec_x_play_position(self) -> HorizontalSpritePosition {
        if self.upper_left.x <= 0 {
            HorizontalSpritePosition::Outside(Side::LEFT)
        } else if self.lower_right.x >= WIDTH {
            HorizontalSpritePosition::Outside(Side::RIGHT)
        } else {
            HorizontalSpritePosition::Inside
        }
    }

    /// Vertical verdict of `is_y_inside_of_play_area`: strictly inside both
    /// horizontal walls.
    pub open spec fn spec_y_inside(self) -> bool {
        self.upper_left.y > 0 && self.lower_right.y < HEIGHT
    }

    /// Builds the rectangle from its center and its extents; the upper-left
    /// corner sits half an extent (rounded down) before the center and the
    /// lower-right corner a full extent after the upper-left one.
    pub fn new(center: Point, width: i64, height: i64, speed: i64, velocity: [i64; 2]) -> (s:
        Sprite)
        requires
            0 <= width <= WIDTH,
            0 <= height <= HEIGHT,
            -POS_LIMIT + WIDTH <= center.x <= POS_LIMIT,
            -POS_LIMIT + HEIGHT <= center.y <= POS_LIMIT,
            -VEL_LIMIT <= velocity[0] <= VEL_LIMIT,
            -VEL_LIMIT <= velocity[1] <= VEL_LIMIT,
            0 <= speed <= VEL_LIMIT,
        ensures
            s.wf(),
            s.upper_left.x == center.x - width / 2,
            s.upper_left.y == center.y - height / 2,
            s.width == width,
            s.height == height,
            s.velocity == velocity,
            s.speed == speed,
    {
        let half_w = width / 2;
        let half_h = height / 2;
        Sprite {
            upper_left: Point { x: center.x - half_w, y: center.y - half_h },
            lower_right: Point { x: center.x - half_w + width, y: center.y - half_h + height },
            width,
            height,
            velocity,
            speed,
        }
    }

    /// Heads straight up at the configured speed.
    pub fn up(&mut self)
        requires
            old(self).speed > i64::MIN,
        ensures
            final(self).velocity[0] == 0,
            final(self).velocity[1] == -old(self).speed,
            *final(self) == (Sprite { velocity: final(self).velocity, ..*old(self) }),
    {
        self.velocity = [0, -self.speed];
    }

    /// Heads straight down at the configured speed.
    pub fn down(&mut self)
        ensures
            final(self).velocity[0] == 0,
            final(self).velocity[1] == old(self).speed,
            *final(self) == (Sprite { velocity: final(self).velocity, ..*old(self) }),
    {
        self.velocity = [0, self.speed];
    }

    /// Comes to rest.
    pub fn stop(&mut self)
        ensures
            final(self).velocity[0] == 0,
            final(self).velocity[1] == 0,
            *final(self) == (Sprite { velocity: final(self).velocity, ..*old(self) }),
    {
        self.velocity = [0, 0];
    }

    /// Advances the rectangle by its velocity, then clamps it fully back into
    /// the play field; afterwards the sprite always lies within
    /// `[0, WIDTH] x [0, HEIGHT]`, however large the velocity step was.
    pub fn update(&mut self)
        requires
            old(self).wf(),
        ensures
            *final(self) == old(self).updated(),
            final(self).wf(),
            final(self).in_play_area(),
    {
        self.upper_left.x = self.upper_left.x + self.velocity[0];
        self.lower_right.x = self.lower_right.x + self.velocity[0];

        if self.upper_left.x < 0 {
            self.upper_left.x = 0;
            self.lower_right.x = self.width;
        } else if self.lower_right.x > WIDTH {
            self.upper_left.x = WIDTH - self.width;
            self.lower_right.x = WIDTH;
        }

        self.upper_left.y = self.upper_left.y + self.velocity[1];
        self.lower_right.y = self.lower_right.y + self.velocity[1];

        if self.upper_left.y < 0 {
            self.upper_left.y = 0;
            self.lower_right.y = self.height;
        } else if self.lower_right.y > HEIGHT {
            self.upper_left.y = HEIGHT - self.height;
            self.lower_right.y = HEIGHT;
        }
    }

    /// Advances the rectangle by its velocity scaled by the elapsed time
    /// `dt`, given in hundredths of a second, with velocities read as
    /// centiunits per second; no clamping takes place. This is the
    /// continuous-time alternative to the fixed per-tick `update`.
    pub fn apply_velocity(&mut self, dt: i64)
        requires
            old(self).wf(),
            0 <= dt <= 10000,
            -900_000_000_000_000 <= old(self).upper_left.x <= 900_000_000_000_000,
            -900_000_000_000_000 <= old(self).upper_left.y <= 900_000_000_000_000,
        ensures
            final(self).upper_left.x == old(self).upper_left.x + div_trunc(
                old(self).velocity[0] * dt, 100),
            final(self).upper_left.y == old(self).upper_left.y + div_trunc(
                old(self).velocity[1] * dt, 100),
            *final(self) == (Sprite {
                upper_left: final(self).upper_left,
                lower_right: final(self).lower_right,
                ..*old(self)
            }),
            final(self).wf(),
    {
        proof {
            lemma_scaled_velocity_bounded(self.velocity[0] as int, dt as int, 10000);
            lemma_scaled_velocity_bounded(self.velocity[1] as int, dt as int, 10000);
        }
        let dx = (self.velocity[0] * dt) / 100;
        let dy = (self.velocity[1] * dt) / 100;
        self.upper_left.x = self.upper_left.x + dx;
        self.lower_right.x = self.lower_right.x + dx;
        self.upper_left.y = self.upper_left.y + dy;
        self.lower_right.y = self.lower_right.y + dy;
    }

    /// Midpoint of the rectangle, each coordinate rounded toward zero.
    pub fn get_center(&self) -> (c: Point)
        requires
            i64::MIN <= self.upper_left.x + self.lower_right.x <= i64::MAX,
            i64::MIN <= self.upper_left.y + self.lower_right.y <= i64::MAX,
        ensures
            c.x == div_trunc(self.upper_left.x + self.lower_right.x, 2),
            c.y == div_trunc(self.upper_left.y + self.lower_right.y, 2),
    {
        Point {
            x: (self.upper_left.x + self.lower_right.x) / 2,
            y: (self.upper_left.y + self.lower_right.y) / 2,
        }
    }

    /// `get_center` as a bare pair.
    pub fn get_center_tuple(&self) -> (c: (i64, i64))
        requires
            i64::MIN <= self.upper_left.x + self.lower_right.x <= i64::MAX,
            i64::MIN <= self.upper_left.y + self.lower_right.y <= i64::MAX,
        ensures
            c.0 == div_trunc(self.upper_left.x + self.lower_right.x, 2),
            c.1 == div_trunc(self.upper_left.y + self.lower_right.y, 2),
    {
        (
            (self.upper_left.x + self.lower_right.x) / 2,
            (self.upper_left.y + self.lower_right.y) / 2,
        )
    }

    /// Scales the velocity component-wise by `multiplier`, read in
    /// centiunits (so `[120, -100]` is "1.2 times, negated"). The result is
    /// kept inside the representable band `[-VEL_LIMIT, VEL_LIMIT]`.
    pub fn mul_velocity(&mut self, multiplier: [i64; 2])
        requires
            -VEL_LIMIT <= old(self).velocity[0] <= VEL_LIMIT,
            -VEL_LIMIT <= old(self).velocity[1] <= VEL_LIMIT,
            -MUL_LIMIT <= multiplier[0] <= MUL_LIMIT,
            -MUL_LIMIT <= multiplier[1] <= MUL_LIMIT,
        ensures
            final(self).velocity[0] == clamp_vel(div_trunc(
                old(self).velocity[0] * multiplier[0], 100)),
            final(self).velocity[1] == clamp_vel(div_trunc(
                old(self).velocity[1] * multiplier[1], 100)),
            *final(self) == (Sprite { velocity: final(self).velocity, ..*old(self) }),
    {
        proof {
            lemma_scaled_velocity_bounded(self.velocity[0] as int, multiplier[0] as int,
                MUL_LIMIT as int);
            lemma_scaled_velocity_bounded(self.velocity[1] as int, multiplier[1] as int,
                MUL_LIMIT as int);
        }
        let vx = clamp_to_vel_limit((self.velocity[0] * multiplier[0]) / 100);
        let vy = clamp_to_vel_limit((self.velocity[1] * multiplier[1]) / 100);
        self.velocity = [vx, vy];
    }

    /// Current vertical velocity component.
    pub fn get_y_speed(&self) -> (v: i64)
        ensures
            v == self.velocity[1],
    {
        self.velocity[1]
    }

    /// The four corners, clockwise from the upper-left one.
    pub fn get_polygon(&self) -> (p: [[i64; 2]; 4])
        ensures
            p[0] == [self.upper_left.x, self.upper_left.y],
            p[1] == [self.lower_right.x, self.upper_left.y],
            p[2] == [self.lower_right.x, self.lower_right.y],
            p[3] == [self.upper_left.x, self.lower_right.y],
    {
        [
            [self.upper_left.x, self.upper_left.y],
            [self.lower_right.x, self.upper_left.y],
            [self.lower_right.x, self.lower_right.y],
            [self.upper_left.x, self.lower_right.y],
        ]
    }

    fn is_vertically_colliding_with(&self, other: &Sprite) -> (r: bool)
        ensures
            r == self.spec_vertically_colliding(*other),
    {
        (self.upper_left.y < other.lower_right.y && self.lower_right.y > other.lower_right.y) || (
        self.upper_left.y < other.upper_left.y && self.lower_right.y > other.upper_left.y)
    }

    fn is_horizontally_colliding_with(&self, other: &Sprite) -> (r: bool)
        ensures
            r == self.spec_horizontally_colliding(*other),
    {
        (self.upper_left.x < other.lower_right.x && self.lower_right.x > other.lower_right.x) || (
        self.upper_left.x < other.upper_left.x && self.lower_right.x > other.upper_left.x)
    }

    /// True if the two rectangles overlap on both axes, evaluated from both
    /// sprites' perspectives.
    pub fn is_colliding_with(&self, other: &Sprite) -> (r: bool)
        ensures
            r == self.spec_colliding(*other),
    {
        (self.is_vertically_colliding_with(other) && self.is_horizontally_colliding_with(other))
            || (other.is_vertically_colliding_with(self) && other.is_horizontally_colliding_with(
            self))
    }

    /// Reports whether the sprite has reached the left or the right boundary:
    /// left if its leading edge is at or past 0, right if its trailing edge
    /// is at or past `WIDTH`.
    pub fn is_x_inside_of_play_area(&self) -> (r: HorizontalSpritePosition)
        ensures
            r == self.spec_x_play_position(),
    {
        if self.upper_left.x <= 0 {
            HorizontalSpritePosition::Outside(Side::LEFT)
        } else if self.lower_right.x >= WIDTH {
            HorizontalSpritePosition::Outside(Side::RIGHT)
        } else {
            HorizontalSpritePosition::Inside
        }
    }

    /// True only if the sprite stands strictly inside both horizontal walls.
    pub fn is_y_inside_of_play_area(&self) -> (r: bool)
        ensures
            r == self.spec_y_inside(),
    {
        self.upper_left.y > 0 && self.lower_right.y < HEIGHT
    }
}

/// The product of a velocity with a factor of magnitude at most `m` stays
/// within `VEL_LIMIT * m`, which fits an `i64`.
proof fn lemma_scaled_velocity_bounded(v: int, f: int, m: int)
    requires
        -VEL_LIMIT <= v <= VEL_LIMIT,
        -m <= f <= m,
        0 <= m <= 1_000_000,
    ensures
        -VEL_LIMIT * m <= v * f <= VEL_LIMIT * m,
{
    assert(-VEL_LIMIT * m <= v * f <= VEL_LIMIT * m) by (nonlinear_arith)
        requires
            -VEL_LIMIT <= v <= VEL_LIMIT,
            -m <= f <= m,
            0 <= m,
    ;
}

/// Executable counterpart of `clamp_vel`.
pub(crate) fn clamp_to_vel_limit(v: i64) -> (r: i64)
    ensures
        r == clamp_vel(v as int),
{
    if v < -VEL_LIMIT {
        -VEL_LIMIT
    } else if v > VEL_LIMIT {
        VEL_LIMIT
    } else {
        v
    }
}

/// Law: a well-formed sprite lies fully within the play field after an
/// update, no matter how large its velocity is.
pub proof fn lemma_update_stays_in_play_area(s: Sprite)
    requires
        s.wf(),
    ensures
        s.updated().wf(),
        s.updated().in_play_area(),
{
}

/// Law: the collision test is symmetric in its two sprites.
pub proof fn lemma_collision_symmetric(a: Sprite, b: Sprite)
    ensures
        a.spec_colliding(b) == b.spec_colliding(a),
{
}

/// Law: colliding sprites overlap with positive area, that is, their open
/// interiors intersect on both axes.
pub proof fn lemma_collision_implies_overlap(a: Sprite, b: Sprite)
    requires
        a.upper_left.x <= a.lower_right.x,
        a.upper_left.y <= a.lower_right.y,
        b.upper_left.x <= b.lower_right.x,
        b.upper_left.y <= b.lower_right.y,
        a.spec_colliding(b),
    ensures
        a.upper_left.x < b.lower_right.x && b.upper_left.x < a.lower_right.x,
        a.upper_left.y < b.lower_right.y && b.upper_left.y < a.lower_right.y,
{
}

/// Law: sprites that merely touch, sharing at most a boundary edge or a
/// corner, do not collide.
pub proof fn lemma_touching_sprites_do_not_collide(a: Sprite, b: Sprite)
    requires
        a.upper_left.x <= a.lower_right.x,
        a.upper_left.y <= a.lower_right.y,
        b.upper_left.x <= b.lower_right.x,
        b.upper_left.y <= b.lower_right.y,
        ({
            ||| a.lower_right.x <= b.upper_left.x
            ||| b.lower_right.x <= a.upper_left.x
            ||| a.lower_right.y <= b.upper_left.y
            ||| b.lower_right.y <= a.upper_left.y
        }),
    ensures
        !a.spec_colliding(b),
{
}

/// Law: a sprite standing at the bottom wall whose velocity still points
/// down stays pinned at `HEIGHT` minus its height.
pub proof fn lemma_pinned_at_bottom_wall(s: Sprite)
    requires
        s.wf(),
        s.lower_right.y == HEIGHT,
        s.velocity[1] >= 0,
    ensures
        s.updated().upper_left.y == HEIGHT - s.height,
        s.updated().lower_right.y == HEIGHT,
{
}

} // verus!
