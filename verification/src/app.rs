//! The match controller: owns the two paddles, the ball, the score pair and
//! the board, and advances the whole match by one tick at a time.
//!
//! Each tick first moves the paddles and the ball, then either awards a
//! point (when the ball has reached a side wall) and resets the ball, or
//! resolves at most one paddle bounce followed by a wall bounce. The
//! surrounding program feeds key events in and reads the state back out for
//! rendering.

use vstd::prelude::*;

use vstd::string::StringExecFns;

use crate::ball::Ball;
use crate::board::Board;
use crate::color::{Color, DefinedColors};
use crate::commons::{clamp_vel, div_trunc, Key, Side, HEIGHT, HORIZONTAL_MARGIN, VEL_LIMIT,
    VERTICAL_MARGIN, WIDTH};
use crate::pad::{spec_pad_down, spec_pad_stop, spec_pad_up, Pad};
use crate::sprite::{HorizontalSpritePosition, Sprite};

verus! {

/// Digit character of a value below ten.
pub open spec fn spec_digit_char(d: nat) -> char {
    if d == 0 {
        '0'
    } else if d == 1 {
        '1'
    } else if d == 2 {
        '2'
    } else if d == 3 {
        '3'
    } else if d == 4 {
        '4'
    } else if d == 5 {
        '5'
    } else if d == 6 {
        '6'
    } else if d == 7 {
        '7'
    } else if d == 8 {
        '8'
    } else {
        '9'
    }
}

/// Decimal numeral of `n`, most significant digit first, without leading
/// zeros.
pub open spec fn spec_decimal(n: nat) -> Seq<char>
    decreases n,
{
    if n < 10 {
        seq![spec_digit_char(n)]
    } else {
        spec_decimal(n / 10) + seq![spec_digit_char(n % 10)]
    }
}

/// The window title readout: both scores around a colon.
pub open spec fn spec_title(left_score: nat, right_score: nat) -> Seq<char> {
    "ROTAPONG! Score: L "@ + spec_decimal(left_score) + " : "@ + spec_decimal(right_score)
        + " R"@
}

/// The ball after it hit a paddle whose vertical velocity is `pad_vy`: the
/// horizontal-bounce multipliers are applied, then the paddle imparts spin.
pub open spec fn spec_ball_after_paddle_hit(b: Ball, pad_vy: i64) -> Ball {
    let bounced = Ball { sprite: Sprite { velocity: b.spec_bounced_x(), ..b.sprite }, ..b };
    Ball {
        sprite: Sprite {
            velocity: [bounced.sprite.velocity[0], clamp_vel(bounced.sprite.velocity[1]
                + div_trunc(pad_vy * 20, 100)) as i64],
            ..bounced.sprite
        },
        ..bounced
    }
}

/// The ball after the collision phase of a tick in which it stayed between
/// the side walls: at most one paddle bounce, the left paddle first, then a
/// vertical wall bounce if it stands at or past a horizontal wall.
pub open spec fn spec_resolve_bounces(b: Ball, left_pad: Pad, right_pad: Pad) -> Ball {
    let hit = if b.sprite.spec_colliding(left_pad.sprite) {
        spec_ball_after_paddle_hit(b, left_pad.sprite.velocity[1])
    } else if b.sprite.spec_colliding(right_pad.sprite) {
        spec_ball_after_paddle_hit(b, right_pad.sprite.velocity[1])
    } else {
        b
    };
    if !hit.sprite.spec_y_inside() {
        Ball { sprite: Sprite { velocity: hit.spec_bounced_y(), ..hit.sprite }, ..hit }
    } else {
        hit
    }
}

pub struct App {
    pub left_pad: Pad,
    pub right_pad: Pad,
    pub ball: Ball,
    pub background_color: Color,
    /// Points taken so far: entry 0 belongs to the left player, entry 1 to
    /// the right one.
    pub scoreboard: [u32; 2],
    pub board: Board,
}

/// How one update tick relates the controller state after it to the state
/// before it. The paddles and the ball move and are clamped; if the moved
/// ball stands at a side wall, the opposite player's score grows by one and
/// the ball is reset to the center with a randomized velocity; otherwise the
/// bounce phase runs and the score stands still.
pub open spec fn spec_tick(pre: App, post: App) -> bool {
    let left_pad = Pad { sprite: pre.left_pad.sprite.updated(), ..pre.left_pad };
    let right_pad = Pad { sprite: pre.right_pad.sprite.updated(), ..pre.right_pad };
    let moved = Ball { sprite: pre.ball.sprite.updated(), ..pre.ball };
    &&& post.left_pad == left_pad
    &&& post.right_pad == right_pad
    &&& post.background_color == pre.background_color
    &&& post.board == pre.board
    &&& match moved.sprite.spec_x_play_position() {
        HorizontalSpritePosition::Outside(Side::LEFT) => {
            &&& post.scoreboard[0] == pre.scoreboard[0]
            &&& post.scoreboard[1] == pre.scoreboard[1] + 1
            &&& Ball::spec_is_reset_sprite(post.ball.sprite)
            &&& post.ball == (Ball { sprite: post.ball.sprite, ..moved })
        },
        HorizontalSpritePosition::Outside(Side::RIGHT) => {
            &&& post.scoreboard[0] == pre.scoreboard[0] + 1
            &&& post.scoreboard[1] == pre.scoreboard[1]
            &&& Ball::spec_is_reset_sprite(post.ball.sprite)
            &&& post.ball == (Ball { sprite: post.ball.sprite, ..moved })
        },
        HorizontalSpritePosition::Inside => {
            &&& post.scoreboard == pre.scoreboard
            &&& post.ball == spec_resolve_bounces(moved, left_pad, right_pad)
        },
    }
}

impl App {
    /// Every owned entity is well formed.
    pub open spec fn wf(self) -> bool {
        &&& self.left_pad.wf()
        &&& self.right_pad.wf()
        &&& self.ball.wf()
        &&& self.board.wf()
    }

    /// A fresh match: paddles at their walls, the ball at the center moving
    /// with the given velocity, both scores zero, and the standard bounce
    /// table (horizontal bounces invert and speed the ball up by a fifth,
    /// vertical ones only invert).
    pub fn new(x_speed: i64, y_speed: i64) -> (app: App)
        requires
            -VEL_LIMIT <= x_speed <= VEL_LIMIT,
            -VEL_LIMIT <= y_speed <= VEL_LIMIT,
        ensures
            app.wf(),
            app.left_pad.wf() && app.left_pad.sprite == crate::pad::spec_default_pad_sprite(
                Side::LEFT),
            app.right_pad.wf() && app.right_pad.sprite == crate::pad::spec_default_pad_sprite(
                Side::RIGHT),
            app.ball.sprite == crate::ball::spec_default_ball_sprite(x_speed, y_speed),
            app.ball.velocity[0][0] == -120 && app.ball.velocity[0][1] == 120,
            app.ball.velocity[1][0] == 100 && app.ball.velocity[1][1] == -100,
            app.scoreboard[0] == 0 && app.scoreboard[1] == 0,
            app.board == (Board { x: HORIZONTAL_MARGIN, y: VERTICAL_MARGIN, width: WIDTH,
                height: HEIGHT }),
    {
        let velocity = [[-120, 120], [100, -100]];

        App {
            left_pad: Pad::new(Side::LEFT),
            right_pad: Pad::new(Side::RIGHT),
            ball: Ball::new(x_speed, y_speed, velocity),
            background_color: Color::new(DefinedColors::CYAN),
            scoreboard: [0, 0],
            board: Board { x: HORIZONTAL_MARGIN, y: VERTICAL_MARGIN, width: WIDTH,
                height: HEIGHT },
        }
    }

    /// Awards the point for a ball that left on `side`: the opposite player
    /// scores, and the ball is reset to the center with a fresh random
    /// velocity.
    pub fn score(&mut self, side: Side)
        requires
            (side is LEFT) ==> old(self).scoreboard[1] < u32::MAX,
            (side is RIGHT) ==> old(self).scoreboard[0] < u32::MAX,
        ensures
            final(self).scoreboard[0] == (match side {
                Side::LEFT => old(self).scoreboard[0] as int,
                Side::RIGHT => old(self).scoreboard[0] + 1,
            }),
            final(self).scoreboard[1] == (match side {
                Side::LEFT => old(self).scoreboard[1] + 1,
                Side::RIGHT => old(self).scoreboard[1] as int,
            }),
            Ball::spec_is_reset_sprite(final(self).ball.sprite),
            final(self).ball == (Ball { sprite: final(self).ball.sprite, ..old(self).ball }),
            *final(self) == (App {
                scoreboard: final(self).scoreboard,
                ball: final(self).ball,
                ..*old(self)
            }),
    {
        match side {
            Side::LEFT => {
                self.scoreboard = [self.scoreboard[0], self.scoreboard[1] + 1];
            },
            Side::RIGHT => {
                self.scoreboard = [self.scoreboard[0] + 1, self.scoreboard[1]];
            },
        }
        self.ball.reset();
    }

    /// One tick of the match, as `spec_tick` describes: move everything,
    /// then either award a point and reset the ball, or resolve bounces.
    pub fn update(&mut self)
        requires
            old(self).wf(),
            old(self).scoreboard[0] < u32::MAX,
            old(self).scoreboard[1] < u32::MAX,
        ensures
            spec_tick(*old(self), *final(self)),
            final(self).wf(),
    {
        self.left_pad.update();
        self.right_pad.update();
        self.ball.update();

        let ghost moved = self.ball;
        let ghost left_pad = self.left_pad;
        let ghost right_pad = self.right_pad;

        match self.ball.sprite.is_x_inside_of_play_area() {
            HorizontalSpritePosition::Inside => {},
            HorizontalSpritePosition::Outside(side) => {
                self.score(side);
                return;
            },
        }

        if self.ball.sprite.is_colliding_with(&self.left_pad.sprite) {
            self.ball.bounce_x();
            let pad_speed = self.left_pad.sprite.get_y_speed();
            self.ball.adjust_y(pad_speed);
            proof {
                assert(self.ball.sprite.velocity =~= spec_ball_after_paddle_hit(moved,
                    left_pad.sprite.velocity[1]).sprite.velocity);
                assert(self.ball == spec_ball_after_paddle_hit(moved,
                    left_pad.sprite.velocity[1]));
            }
        } else if self.ball.sprite.is_colliding_with(&self.right_pad.sprite) {
            self.ball.bounce_x();
            let pad_speed = self.right_pad.sprite.get_y_speed();
            self.ball.adjust_y(pad_speed);
            proof {
                assert(self.ball.sprite.velocity =~= spec_ball_after_paddle_hit(moved,
                    right_pad.sprite.velocity[1]).sprite.velocity);
                assert(self.ball == spec_ball_after_paddle_hit(moved,
                    right_pad.sprite.velocity[1]));
            }
        }

        let ghost hit = self.ball;

        if !self.ball.sprite.is_y_inside_of_play_area() {
            self.ball.bounce_y();
            proof {
                assert(self.ball.sprite.velocity =~= hit.spec_bounced_y());
                assert(self.ball == spec_resolve_bounces(moved, left_pad, right_pad));
            }
        }
    }

    /// Reacts to a released key: releasing any of the four control keys
    /// stops the paddle it steers; everything else is ignored.
    pub fn release(&mut self, key: &Key)
        requires
            old(self).wf(),
        ensures
            final(self).wf(),
            *final(self) == (App {
                left_pad: final(self).left_pad,
                right_pad: final(self).right_pad,
                ..*old(self)
            }),
            final(self).left_pad == (match key {
                Key::W | Key::S => spec_pad_stop(old(self).left_pad),
                _ => old(self).left_pad,
            }),
            final(self).right_pad == (match key {
                Key::Up | Key::Down => spec_pad_stop(old(self).right_pad),
                _ => old(self).right_pad,
            }),
    {
        match key {
            Key::W => {
                self.left_pad.stop();
            },
            Key::S => {
                self.left_pad.stop();
            },
            Key::Up => {
                self.right_pad.stop();
            },
            Key::Down => {
                self.right_pad.stop();
            },
            _ => {},
        }
    }

    /// Reacts to a pressed key: `W`/`S` steer the left paddle up and down,
    /// the arrow keys the right one; everything else is ignored.
    pub fn key_pressed(&mut self, key: &Key)
        requires
            old(self).wf(),
        ensures
            final(self).wf(),
            *final(self) == (App {
                left_pad: final(self).left_pad,
                right_pad: final(self).right_pad,
                ..*old(self)
            }),
            final(self).left_pad == (match key {
                Key::W => spec_pad_up(old(self).left_pad),
                Key::S => spec_pad_down(old(self).left_pad),
                _ => old(self).left_pad,
            }),
            final(self).right_pad == (match key {
                Key::Up => spec_pad_up(old(self).right_pad),
                Key::Down => spec_pad_down(old(self).right_pad),
                _ => old(self).right_pad,
            }),
    {
        match key {
            Key::W => {
                self.left_pad.up();
            },
            Key::S => {
                self.left_pad.down();
            },
            Key::Up => {
                self.right_pad.up();
            },
            Key::Down => {
                self.right_pad.down();
            },
            _ => {},
        }
    }

    /// The window-title readout of the current score.
    pub fn get_title(&self) -> (title: String)
        ensures
            title@ == spec_title(self.scoreboard[0] as nat, self.scoreboard[1] as nat),
    {
        let mut title = String::from_str("ROTAPONG! Score: L ");
        let left_digits = u32_to_decimal(self.scoreboard[0]);
        title.append(left_digits.as_str());
        title.append(" : ");
        let right_digits = u32_to_decimal(self.scoreboard[1]);
        title.append(right_digits.as_str());
        title.append(" R");
        proof {
            assert(title@ =~= spec_title(self.scoreboard[0] as nat,
                self.scoreboard[1] as nat));
        }
        title
    }
}

/// Law: one tick never lowers either score; it raises the two scores'
/// sum by at most one point, and leaves both untouched whenever the moved
/// ball stands clear of the side walls.
pub proof fn lemma_tick_scores_monotonic(pre: App, post: App)
    requires
        spec_tick(pre, post),
    ensures
        post.scoreboard[0] >= pre.scoreboard[0],
        post.scoreboard[1] >= pre.scoreboard[1],
        post.scoreboard[0] + post.scoreboard[1] <= pre.scoreboard[0] + pre.scoreboard[1] + 1,
        (pre.ball.sprite.updated().spec_x_play_position() is Inside) ==> post.scoreboard
            == pre.scoreboard,
{
}

/// The one-character string slice of a decimal digit.
fn digit_str(d: u32) -> (s: &'static str)
    requires
        d < 10,
    ensures
        s@ =~= seq![spec_digit_char(d as nat)],
{
    proof {
        reveal_strlit("0");
        reveal_strlit("1");
        reveal_strlit("2");
        reveal_strlit("3");
        reveal_strlit("4");
        reveal_strlit("5");
        reveal_strlit("6");
        reveal_strlit("7");
        reveal_strlit("8");
        reveal_strlit("9");
    }
    match d {
        0 => "0",
        1 => "1",
        2 => "2",
        3 => "3",
        4 => "4",
        5 => "5",
        6 => "6",
        7 => "7",
        8 => "8",
        _ => "9",
    }
}

/// Decimal numeral of `n`, built most significant digit first.
fn u32_to_decimal(n: u32) -> (s: String)
    ensures
        s@ == spec_decimal(n as nat),
    decreases n,
{
    if n < 10 {
        String::from_str(digit_str(n))
    } else {
        let mut s = u32_to_decimal(n / 10);
        s.append(digit_str(n % 10));
        s
    }
}

} // verus!
