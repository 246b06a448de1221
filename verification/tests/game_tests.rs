use rotapong::app::App;
use rotapong::ball::Ball;
use rotapong::board::Board;
use rotapong::color::{Color, DefinedColors};
use rotapong::commons::{Key, Side};
use rotapong::coordinate_transformation::{transform_x, transform_y};
use rotapong::pad::Pad;

const STANDARD_BOUNCE: [[i64; 2]; 2] = [[-120, 120], [100, -100]];

#[test]
fn ball_starts_at_arena_center() {
    let ball = Ball::new(-200, 0, STANDARD_BOUNCE);
    assert_eq!(ball.sprite.upper_left.x, 31000);
    assert_eq!(ball.sprite.upper_left.y, 23000);
    assert_eq!(ball.sprite.lower_right.x, 33000);
    assert_eq!(ball.sprite.lower_right.y, 25000);
    assert_eq!(ball.sprite.velocity, [-200, 0]);
    assert_eq!(ball.radius, 1000);
}

#[test]
fn bounce_x_applies_horizontal_multipliers() {
    let mut ball = Ball::new(200, 100, STANDARD_BOUNCE);
    ball.bounce_x();
    // vx is inverted and sped up by a fifth, vy only sped up.
    assert_eq!(ball.sprite.velocity, [-240, 120]);
}

#[test]
fn bounce_y_applies_vertical_multipliers() {
    let mut ball = Ball::new(240, -130, STANDARD_BOUNCE);
    ball.bounce_y();
    assert_eq!(ball.sprite.velocity, [240, 130]);
}

#[test]
fn adjust_y_imparts_a_fifth_of_the_paddle_speed() {
    let mut ball = Ball::new(200, 100, STANDARD_BOUNCE);
    ball.adjust_y(300);
    assert_eq!(ball.sprite.velocity, [200, 160]);
    ball.adjust_y(-300);
    assert_eq!(ball.sprite.velocity, [200, 100]);
    // The nudge truncates toward zero on both signs.
    ball.adjust_y(7);
    assert_eq!(ball.sprite.velocity, [200, 101]);
    ball.adjust_y(-7);
    assert_eq!(ball.sprite.velocity, [200, 100]);
}

#[test]
fn reset_randomizes_velocity_within_bands() {
    let mut ball = Ball::new(0, 0, STANDARD_BOUNCE);
    for _ in 0..50 {
        ball.reset();
        let vx = ball.sprite.velocity[0];
        let vy = ball.sprite.velocity[1];
        assert_ne!(vx, 0);
        assert_ne!(vy, 0);
        assert!((50..150).contains(&vx.abs()));
        assert!((80..130).contains(&vy.abs()));
        assert_eq!(ball.sprite.upper_left.x, 31000);
        assert_eq!(ball.sprite.upper_left.y, 23000);
    }
}

#[test]
fn pads_start_at_their_walls_vertically_centered() {
    let left = Pad::new(Side::LEFT);
    assert_eq!(left.sprite.upper_left.x, 0);
    assert_eq!(left.sprite.lower_right.x, 2000);
    assert_eq!(left.sprite.upper_left.y, 18000);
    assert_eq!(left.sprite.lower_right.y, 30000);
    assert_eq!(left.sprite.velocity, [0, 0]);

    let right = Pad::new(Side::RIGHT);
    assert_eq!(right.sprite.upper_left.x, 62000);
    assert_eq!(right.sprite.lower_right.x, 64000);
    assert_eq!(right.sprite.upper_left.y, 18000);
    assert_eq!(right.sprite.lower_right.y, 30000);
}

#[test]
fn pad_controls_steer_only_vertically() {
    let mut pad = Pad::new(Side::LEFT);
    pad.up();
    assert_eq!(pad.sprite.velocity, [0, -300]);
    pad.down();
    assert_eq!(pad.sprite.velocity, [0, 300]);
    pad.stop();
    assert_eq!(pad.sprite.velocity, [0, 0]);
}

#[test]
fn pad_stays_pinned_at_bottom_wall() {
    let mut pad = Pad::new(Side::LEFT);
    pad.down();
    // 60 ticks at 300 per tick cover the 18000 to the bottom wall.
    for _ in 0..80 {
        pad.update();
    }
    assert_eq!(pad.sprite.upper_left.y, 48000 - 12000);
    assert_eq!(pad.sprite.lower_right.y, 48000);
    pad.update();
    assert_eq!(pad.sprite.upper_left.y, 36000);
}

#[test]
fn fresh_match_title() {
    let app = App::new(-200, 0);
    assert_eq!(app.get_title().as_str(), "ROTAPONG! Score: L 0 : 0 R");
}

#[test]
fn score_awards_the_opposite_player() {
    let mut app = App::new(-200, 0);
    // The ball left on the left side: the right player scores.
    app.score(Side::LEFT);
    assert_eq!(app.scoreboard, [0, 1]);
    app.score(Side::RIGHT);
    assert_eq!(app.scoreboard, [1, 1]);
    let vx = app.ball.sprite.velocity[0];
    let vy = app.ball.sprite.velocity[1];
    assert!((50..150).contains(&vx.abs()));
    assert!((80..130).contains(&vy.abs()));
}

#[test]
fn title_shows_multi_digit_scores() {
    let mut app = App::new(-200, 0);
    for _ in 0..12 {
        app.score(Side::LEFT);
    }
    assert_eq!(app.get_title().as_str(), "ROTAPONG! Score: L 0 : 12 R");
}

#[test]
fn ball_crossing_left_boundary_scores_right_exactly_once() {
    // The ball starts at the center heading straight left; the left paddle
    // is steered to the bottom wall so that nothing blocks the ball.
    let mut app = App::new(-200, 0);
    app.key_pressed(&Key::S);

    let mut scores_seen: u32 = 0;
    for _ in 0..155 {
        app.update();
        if app.scoreboard != [0, 0] {
            scores_seen += 1;
        }
    }
    assert_eq!(scores_seen, 1, "the point must fall on the last tick only");
    assert_eq!(app.scoreboard, [0, 1]);

    // The ball was reset: re-centered with a fresh velocity in the bands.
    assert_eq!(app.ball.sprite.upper_left.x, 31000);
    assert_eq!(app.ball.sprite.upper_left.y, 23000);
    let vx = app.ball.sprite.velocity[0];
    let vy = app.ball.sprite.velocity[1];
    assert!((50..150).contains(&vx.abs()));
    assert!((80..130).contains(&vy.abs()));
    assert_eq!(app.get_title().as_str(), "ROTAPONG! Score: L 0 : 1 R");
}

#[test]
fn ball_crossing_right_boundary_scores_left() {
    let mut app = App::new(200, 0);
    app.key_pressed(&Key::Down);
    for _ in 0..155 {
        app.update();
    }
    assert_eq!(app.scoreboard, [1, 0]);
    assert_eq!(app.ball.sprite.upper_left.x, 31000);
}

#[test]
fn ball_bounces_off_a_paddle() {
    // The ball heads left at paddle height with no vertical motion; the
    // paddles stand still, so it meets the left paddle and bounces back.
    let mut app = App::new(-200, 0);
    for _ in 0..146 {
        app.update();
    }
    // After 146 ticks the ball's leading edge is at 1800, inside the
    // paddle's band, so the horizontal bounce has been applied: the
    // velocity is inverted and sped up by a fifth.
    assert_eq!(app.scoreboard, [0, 0]);
    assert_eq!(app.ball.sprite.velocity[0], 240);
    assert_eq!(app.ball.sprite.velocity[1], 0);
}

#[test]
fn key_events_steer_the_paddles() {
    let mut app = App::new(-200, 0);
    app.key_pressed(&Key::W);
    assert_eq!(app.left_pad.sprite.velocity, [0, -300]);
    app.release(&Key::W);
    assert_eq!(app.left_pad.sprite.velocity, [0, 0]);
    app.key_pressed(&Key::Up);
    assert_eq!(app.right_pad.sprite.velocity, [0, -300]);
    app.release(&Key::Up);
    assert_eq!(app.right_pad.sprite.velocity, [0, 0]);
    app.key_pressed(&Key::Other);
    assert_eq!(app.left_pad.sprite.velocity, [0, 0]);
    assert_eq!(app.right_pad.sprite.velocity, [0, 0]);
}

#[test]
fn colors_carry_their_palette_hues() {
    let red = Color::new(DefinedColors::RED);
    assert_eq!(red.hue, 180);
    assert_eq!(red.saturation, 100);
    assert_eq!(red.lightness, 100);
    let cyan = Color::new(DefinedColors::CYAN);
    assert_eq!(cyan.hue, 0);
}

#[test]
fn board_frame_lines() {
    let board = Board { x: 15000, y: 10000, width: 64000, height: 48000 };
    let lines = board.get_lines();
    assert_eq!(lines[0], [15000, 10000, 79000, 10000]);
    assert_eq!(lines[1], [79000, 10000, 79000, 58000]);
    assert_eq!(lines[2], [15000, 10000, 15000, 58000]);
    assert_eq!(lines[3], [15000, 58000, 79000, 58000]);
}

#[test]
fn coordinate_transformation_offsets_by_margins() {
    assert_eq!(transform_x(0), 15000);
    assert_eq!(transform_y(0), 10000);
    assert_eq!(transform_x(-500), 14500);
    assert_eq!(transform_y(32000), 42000);
}
