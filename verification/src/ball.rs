//! The ball: a sprite with a radius, a bounce-multiplier table, and a
//! randomized reset that re-centers it after each score.

use vstd::prelude::*;

use rand::Rng;

use crate::color::{Color, DefinedColors};
use crate::commons::{clamp_vel, div_trunc, Point, HEIGHT, MUL_LIMIT, VEL_LIMIT, WIDTH};
use crate::sprite::{clamp_to_vel_limit, Sprite};

verus! {

/// Ball radius, in centiunits (10 logical units).
pub const BALL_RADIUS: i64 = 1000;

/// Ball bounding-box side, in centiunits: twice the radius.
pub const BALL_SIZE: i64 = 2000;

/// Speed value the ball sprite is constructed with, in centiunits per tick.
pub const BALL_SPEED: i64 = 300;

/// Smallest magnitude of a freshly randomized horizontal speed (0.5 logical
/// units per tick); the drawn value stays strictly under `RESET_X_SPEED_HIGH`.
pub const RESET_X_SPEED_LOW: i64 = 50;

pub const RESET_X_SPEED_HIGH: i64 = 150;

/// Bounds of a freshly randomized vertical speed: at least 0.8, strictly
/// under 1.3 logical units per tick.
pub const RESET_Y_SPEED_LOW: i64 = 80;

pub const RESET_Y_SPEED_HIGH: i64 = 130;

/// The sprite a ball starts or restarts with: a `BALL_SIZE` square at the
/// center of the play field, moving with the given velocity.
pub open spec fn spec_default_ball_sprite(x_speed: i64, y_speed: i64) -> Sprite {
    Sprite {
        upper_left: Point { x: (WIDTH / 2 - BALL_SIZE / 2) as i64, y: (HEIGHT / 2 - BALL_SIZE
            / 2) as i64 },
        lower_right: Point { x: (WIDTH / 2 + BALL_SIZE / 2) as i64, y: (HEIGHT / 2 + BALL_SIZE
            / 2) as i64 },
        width: BALL_SIZE,
        height: BALL_SIZE,
        velocity: [x_speed, y_speed],
        speed: BALL_SPEED,
    }
}

fn make_default_ball_sprite(x_speed: i64, y_speed: i64) -> (s: Sprite)
    requires
        -VEL_LIMIT <= x_speed <= VEL_LIMIT,
        -VEL_LIMIT <= y_speed <= VEL_LIMIT,
    ensures
        s == spec_default_ball_sprite(x_speed, y_speed),
        s.wf(),
{
    let center_of_screen = [WIDTH / 2, HEIGHT / 2];
    Sprite::new(
        Point { x: center_of_screen[0], y: center_of_screen[1] },
        BALL_SIZE,
        BALL_SIZE,
        BALL_SPEED,
        [x_speed, y_speed],
    )
}

/// Relies on `rand::Rng::gen_range` on the thread-local generator: it returns
/// a uniformly drawn value within the given half-open range, and panics only
/// on an empty range, which the precondition rules out.
#[verifier::external_body]
fn random_in_range(low: u64, high: u64) -> (r: u64)
    requires
        low < high,
    ensures
        low <= r < high,
{
    rand::thread_rng().gen_range(low..high)
}

pub struct Ball {
    pub sprite: Sprite,
    pub radius: i64,
    pub color: Color,
    /// Bounce-multiplier table, in centiunits: row 0 is applied to the
    /// velocity on a horizontal bounce, row 1 on a vertical one.
    pub velocity: [[i64; 2]; 2],
}

impl Ball {
    /// The sprite is a well-formed square of the ball size and the bounce
    /// multipliers stay in the representable band.
    pub open spec fn wf(self) -> bool {
        &&& self.sprite.wf()
        &&& self.sprite.width == BALL_SIZE
        &&& self.sprite.height == BALL_SIZE
        &&& self.radius == BALL_RADIUS
        &&& -MUL_LIMIT <= self.velocity[0][0] <= MUL_LIMIT
        &&& -MUL_LIMIT <= self.velocity[0][1] <= MUL_LIMIT
        &&& -MUL_LIMIT <= self.velocity[1][0] <= MUL_LIMIT
        &&& -MUL_LIMIT <= self.velocity[1][1] <= MUL_LIMIT
    }

    /// The velocity the given ball would have after a horizontal bounce.
    pub open spec fn spec_bounced_x(self) -> [i64; 2] {
        [clamp_vel(div_trunc(self.sprite.velocity[0] * self.velocity[0][0], 100)) as i64,
            clamp_vel(div_trunc(self.sprite.velocity[1] * self.velocity[0][1], 100)) as i64]
    }

    /// The velocity the given ball would have after a vertical bounce.
    pub open spec fn spec_bounced_y(self) -> [i64; 2] {
        [clamp_vel(div_trunc(self.sprite.velocity[0] * self.velocity[1][0], 100)) as i64,
            clamp_vel(div_trunc(self.sprite.velocity[1] * self.velocity[1][1], 100)) as i64]
    }

    /// The sprite is freshly reset: standing at the arena center with some
    /// velocity in the randomized bands, neither component zero.
    pub open spec fn spec_is_reset_sprite(s: Sprite) -> bool {
        &&& s == spec_default_ball_sprite(s.velocity[0], s.velocity[1])
        &&& (RESET_X_SPEED_LOW <= s.velocity[0] < RESET_X_SPEED_HIGH || -RESET_X_SPEED_HIGH
            < s.velocity[0] <= -RESET_X_SPEED_LOW)
        &&& (RESET_Y_SPEED_LOW <= s.velocity[1] < RESET_Y_SPEED_HIGH || -RESET_Y_SPEED_HIGH
            < s.velocity[1] <= -RESET_Y_SPEED_LOW)
        &&& s.velocity[0] != 0
        &&& s.velocity[1] != 0
    }

    /// Places the ball at the arena center with the given velocity and bounce
    /// multipliers.
    pub fn new(x_speed: i64, y_speed: i64, velocity: [[i64; 2]; 2]) -> (b: Ball)
        requires
            -VEL_LIMIT <= x_speed <= VEL_LIMIT,
            -VEL_LIMIT <= y_speed <= VEL_LIMIT,
            -MUL_LIMIT <= velocity[0][0] <= MUL_LIMIT,
            -MUL_LIMIT <= velocity[0][1] <= MUL_LIMIT,
            -MUL_LIMIT <= velocity[1][0] <= MUL_LIMIT,
            -MUL_LIMIT <= velocity[1][1] <= MUL_LIMIT,
        ensures
            b.wf(),
            b.sprite == spec_default_ball_sprite(x_speed, y_speed),
            b.radius == BALL_RADIUS,
            b.velocity == velocity,
    {
        Ball {
            sprite: make_default_ball_sprite(x_speed, y_speed),
            radius: BALL_RADIUS,
            color: Color::new(DefinedColors::RED),
            velocity,
        }
    }

    /// Nudges the vertical velocity by a fifth of the colliding paddle's
    /// vertical speed, imparting spin from a moving paddle.
    pub fn adjust_y(&mut self, pad_speed: i64)
        requires
            old(self).wf(),
            -VEL_LIMIT <= pad_speed <= VEL_LIMIT,
        ensures
            final(self).sprite.velocity[0] == old(self).sprite.velocity[0],
            final(self).sprite.velocity[1] == clamp_vel(old(self).sprite.velocity[1] + div_trunc(
                pad_speed * 20, 100)),
            final(self).sprite == (Sprite {
                velocity: final(self).sprite.velocity,
                ..old(self).sprite
            }),
            *final(self) == (Ball { sprite: final(self).sprite, ..*old(self) }),
            final(self).wf(),
    {
        let nudge = (pad_speed * 20) / 100;
        let vy = clamp_to_vel_limit(self.sprite.velocity[1] + nudge);
        self.sprite.velocity = [self.sprite.velocity[0], vy];
    }

    /// Applies the horizontal-bounce multiplier pair to the velocity.
    pub fn bounce_x(&mut self)
        requires
            old(self).wf(),
        ensures
            final(self).sprite.velocity == old(self).spec_bounced_x(),
            final(self).sprite == (Sprite {
                velocity: final(self).sprite.velocity,
                ..old(self).sprite
            }),
            *final(self) == (Ball { sprite: final(self).sprite, ..*old(self) }),
            final(self).wf(),
    {
        let multiplier = self.velocity[0];
        self.sprite.mul_velocity(multiplier);
    }

    /// Applies the vertical-bounce multiplier pair to the velocity.
    pub fn bounce_y(&mut self)
        requires
            old(self).wf(),
        ensures
            final(self).sprite.velocity == old(self).spec_bounced_y(),
            final(self).sprite == (Sprite {
                velocity: final(self).sprite.velocity,
                ..old(self).sprite
            }),
            *final(self) == (Ball { sprite: final(self).sprite, ..*old(self) }),
            final(self).wf(),
    {
        let multiplier = self.velocity[1];
        self.sprite.mul_velocity(multiplier);
    }

    /// One tick of motion: the sprite advances and is clamped into the play
    /// field.
    pub fn update(&mut self)
        requires
            old(self).wf(),
        ensures
            final(self).sprite == old(self).sprite.updated(),
            *final(self) == (Ball { sprite: final(self).sprite, ..*old(self) }),
            final(self).wf(),
            final(self).sprite.in_play_area(),
    {
        self.sprite.update();
    }

    /// Re-centers the ball and gives it a freshly randomized velocity: the
    /// horizontal speed is drawn from [0.5, 1.5), the vertical one from
    /// [0.8, 1.3) logical units per tick, and each is negated with
    /// probability one half, so neither component is ever zero afterwards.
    pub fn reset(&mut self)
        ensures
            Ball::spec_is_reset_sprite(final(self).sprite),
            *final(self) == (Ball { sprite: final(self).sprite, ..*old(self) }),
    {
        let mut x_speed: i64 = random_in_range(RESET_X_SPEED_LOW as u64, RESET_X_SPEED_HIGH
            as u64) as i64;
        let mut y_speed: i64 = random_in_range(RESET_Y_SPEED_LOW as u64, RESET_Y_SPEED_HIGH
            as u64) as i64;
        if random_in_range(0, 10) > 4 {
            x_speed = -x_speed;
        }
        if random_in_range(0, 10) > 4 {
            y_speed = -y_speed;
        }
        self.sprite = make_default_ball_sprite(x_speed, y_speed);
    }
}

} // verus!
