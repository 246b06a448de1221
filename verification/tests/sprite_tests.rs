use rotapong::commons::Point;
use rotapong::sprite::Sprite;

fn make_test_sprite(nw: [i64; 2], se: [i64; 2]) -> Sprite {
    Sprite {
        upper_left: Point { x: nw[0], y: nw[1] },
        lower_right: Point { x: se[0], y: se[1] },
        width: 0,
        height: 0,
        velocity: [0, 0],
        speed: 0,
    }
}

#[test]
fn one_corner() {
    let colliding1 = make_test_sprite([0, 0], [100, 100]);
    let colliding2 = make_test_sprite([50, 50], [200, 200]);
    assert!(colliding1.is_colliding_with(&colliding2));
    assert!(colliding2.is_colliding_with(&colliding1));
}

#[test]
fn whole_side_y() {
    let colliding1 = make_test_sprite([0, 0], [300, 300]);
    let colliding2 = make_test_sprite([50, 50], [200, 500]);
    assert!(colliding1.is_colliding_with(&colliding2));
    assert!(colliding2.is_colliding_with(&colliding1));
}

#[test]
fn whole_side_x() {
    let colliding1 = make_test_sprite([0, 0], [300, 300]);
    let colliding2 = make_test_sprite([50, 50], [500, 200]);
    assert!(colliding1.is_colliding_with(&colliding2));
    assert!(colliding2.is_colliding_with(&colliding1));
}

#[test]
fn inside() {
    let colliding1 = make_test_sprite([0, 0], [300, 300]);
    let colliding2 = make_test_sprite([50, 50], [200, 200]);
    assert!(colliding1.is_colliding_with(&colliding2));
    assert!(colliding2.is_colliding_with(&colliding1));
}

#[test]
fn get_center_and_get_center_tuple() {
    let sprite = Sprite::new(Point { x: 100, y: 200 }, 400, 200, 300, [0, 0]);
    assert_eq!(sprite.get_center().x, 100);
    assert_eq!(sprite.get_center().y, 200);
    assert_eq!(sprite.get_center_tuple(), (100, 200));
}

#[test]
fn touching_edges_do_not_collide() {
    // The two unit squares share only their vertical boundary edge.
    let left = make_test_sprite([0, 0], [100, 100]);
    let right = make_test_sprite([100, 0], [200, 100]);
    assert!(!left.is_colliding_with(&right));
    assert!(!right.is_colliding_with(&left));
}

#[test]
fn positive_overlap_collides() {
    let a = make_test_sprite([0, 0], [100, 100]);
    let b = make_test_sprite([50, 50], [200, 200]);
    assert!(a.is_colliding_with(&b));
    assert!(b.is_colliding_with(&a));
}

#[test]
fn edge_on_edge_overlap_needs_a_strictly_interior_edge() {
    // The collision predicate fires only when some edge of one rectangle
    // lies strictly between the other's, so two coincident rectangles do
    // not report a collision.
    let a = make_test_sprite([0, 0], [100, 100]);
    let b = make_test_sprite([0, 0], [100, 100]);
    assert!(!a.is_colliding_with(&b));
}

#[test]
fn collision_test_is_symmetric_on_cross_shapes() {
    // A wide flat sprite crossed by a tall narrow one: whatever the verdict,
    // it must agree from both perspectives.
    let wide = make_test_sprite([0, 0], [1000, 100]);
    let tall = make_test_sprite([400, -300], [600, 500]);
    assert_eq!(wide.is_colliding_with(&tall), tall.is_colliding_with(&wide));
}

#[test]
fn update_clamps_huge_step_inside_play_area() {
    let mut sprite = Sprite::new(Point { x: 32000, y: 24000 }, 2000, 12000, 300,
        [99_999_999, -99_999_999]);
    sprite.update();
    assert_eq!(sprite.upper_left.x, 64000 - 2000);
    assert_eq!(sprite.lower_right.x, 64000);
    assert_eq!(sprite.upper_left.y, 0);
    assert_eq!(sprite.lower_right.y, 12000);
}

#[test]
fn update_moves_by_velocity_when_inside() {
    let mut sprite = Sprite::new(Point { x: 32000, y: 24000 }, 2000, 2000, 300, [-200, 130]);
    sprite.update();
    assert_eq!(sprite.upper_left.x, 31000 - 200);
    assert_eq!(sprite.lower_right.x, 33000 - 200);
    assert_eq!(sprite.upper_left.y, 23000 + 130);
    assert_eq!(sprite.lower_right.y, 25000 + 130);
}

#[test]
fn pinned_at_bottom_wall_under_down_velocity() {
    let mut sprite = Sprite::new(Point { x: 1000, y: 42000 }, 2000, 12000, 300, [0, 0]);
    sprite.down();
    for _ in 0..20 {
        sprite.update();
        assert!(sprite.lower_right.y <= 48000);
    }
    assert_eq!(sprite.upper_left.y, 48000 - 12000);
    assert_eq!(sprite.lower_right.y, 48000);
    sprite.update();
    assert_eq!(sprite.lower_right.y, 48000);
}

#[test]
fn directional_moves_set_velocity() {
    let mut sprite = Sprite::new(Point { x: 1000, y: 24000 }, 2000, 12000, 300, [10, 20]);
    sprite.up();
    assert_eq!(sprite.velocity, [0, -300]);
    sprite.down();
    assert_eq!(sprite.velocity, [0, 300]);
    sprite.stop();
    assert_eq!(sprite.velocity, [0, 0]);
}

#[test]
fn mul_velocity_scales_and_truncates() {
    let mut sprite = Sprite::new(Point { x: 32000, y: 24000 }, 2000, 2000, 300, [-250, 130]);
    sprite.mul_velocity([-120, 150]);
    assert_eq!(sprite.velocity, [300, 195]);
    sprite.mul_velocity([99, 99]);
    // 300 * 99 and 195 * 99 truncate toward zero when divided by 100.
    assert_eq!(sprite.velocity, [297, 193]);
}

#[test]
fn mul_velocity_clamps_into_representable_band() {
    let mut sprite = make_test_sprite([0, 0], [100, 100]);
    sprite.velocity = [1_000_000_000_000, -1_000_000_000_000];
    sprite.mul_velocity([200, 200]);
    assert_eq!(sprite.velocity, [1_000_000_000_000, -1_000_000_000_000]);
}

#[test]
fn apply_velocity_scales_by_elapsed_time() {
    let mut sprite = Sprite::new(Point { x: 1000, y: 1000 }, 2000, 2000, 300, [150, -75]);
    sprite.apply_velocity(200);
    assert_eq!(sprite.upper_left.x, 0 + 300);
    assert_eq!(sprite.upper_left.y, 0 - 150);
    assert_eq!(sprite.lower_right.x, 2000 + 300);
    assert_eq!(sprite.lower_right.y, 2000 - 150);
}

#[test]
fn get_polygon_lists_corners_clockwise() {
    let sprite = make_test_sprite([100, 200], [300, 400]);
    assert_eq!(sprite.get_polygon(), [[100, 200], [300, 200], [300, 400], [100, 400]]);
}

#[test]
fn x_play_area_verdicts() {
    let inside_sprite = make_test_sprite([100, 0], [63900, 100]);
    assert!(matches!(inside_sprite.is_x_inside_of_play_area(),
        rotapong::sprite::HorizontalSpritePosition::Inside));
    let at_left = make_test_sprite([0, 0], [100, 100]);
    assert!(matches!(at_left.is_x_inside_of_play_area(),
        rotapong::sprite::HorizontalSpritePosition::Outside(rotapong::commons::Side::LEFT)));
    let at_right = make_test_sprite([63900, 0], [64000, 100]);
    assert!(matches!(at_right.is_x_inside_of_play_area(),
        rotapong::sprite::HorizontalSpritePosition::Outside(rotapong::commons::Side::RIGHT)));
}

#[test]
fn y_play_area_is_strict() {
    let inside_sprite = make_test_sprite([0, 100], [100, 47900]);
    assert!(inside_sprite.is_y_inside_of_play_area());
    let at_top = make_test_sprite([0, 0], [100, 100]);
    assert!(!at_top.is_y_inside_of_play_area());
    let at_bottom = make_test_sprite([0, 47900], [100, 48000]);
    assert!(!at_bottom.is_y_inside_of_play_area());
}
