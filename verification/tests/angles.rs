use pong::angle::{calculate_angle, HALF_TURN, MAX_ANGLE, MIN_ANGLE, QUARTER_TURN};
use pong::fixed::Vec2;
use pong::geometry::{Circle, Rect};
use pong::paddle::Side;
use pong::puck::Puck;

fn angle_at(offset: i32, height: u32) -> i32 {
    let puck = Circle { x: 0, y: 1_000 + offset, r: 10_000 };
    let paddle = Rect { x: 0, y: 1_000, w: 10_000, h: height };
    calculate_angle(&puck, &paddle)
}

fn heading_after(angle: i32, side: Side) -> i64 {
    let mut puck = Puck {
        radius: 10_000,
        pos: Vec2 { x: 0, y: 0 },
        speed: Vec2 { x: 200_000, y: 200_000 },
        heading: 180_000,
    };
    puck.set_y_angle(angle, &side);
    puck.heading
}

#[test]
fn angle_constants_are_in_thousandths_of_a_degree() {
    assert_eq!(MIN_ANGLE, 20_000);
    assert_eq!(MAX_ANGLE, 160_000);
    assert_eq!(HALF_TURN, 180_000);
    assert_eq!(QUARTER_TURN, 90_000);
}

#[test]
fn strike_at_mid_height_leaves_at_a_right_angle() {
    assert_eq!(angle_at(25_000, 50_000), 90_000);
}

#[test]
fn strike_in_the_upper_part_leaves_at_a_wide_angle() {
    // 10 of 50 pixels down: 180 - 36 degrees
    assert_eq!(angle_at(10_000, 50_000), 144_000);
    assert_eq!(angle_at(12_345, 50_000), 135_558);
}

#[test]
fn strike_near_the_ends_is_bounded() {
    assert_eq!(angle_at(0, 50_000), 160_000);
    assert_eq!(angle_at(1, 50_000), 160_000);
    assert_eq!(angle_at(5_000, 50_000), 160_000);
    assert_eq!(angle_at(45_000, 50_000), 20_000);
    assert_eq!(angle_at(49_999, 50_000), 20_000);
    assert_eq!(angle_at(50_000, 50_000), 20_000);
}

#[test]
fn strike_beyond_the_ends_is_bounded() {
    assert_eq!(angle_at(-10_000, 50_000), 160_000);
    assert_eq!(angle_at(60_000, 50_000), 20_000);
    assert_eq!(angle_at(i32::MIN + 1_000, 1), 160_000);
    assert_eq!(angle_at(i32::MAX - 1_000, 1), 20_000);
}

#[test]
fn bounds_are_reached_exactly_where_the_raw_angle_crosses_them() {
    assert_eq!(angle_at(5_555, 50_000), 160_000);
    assert_eq!(angle_at(5_556, 50_000), 159_999);
    assert_eq!(angle_at(44_444, 50_000), 20_002);
    assert_eq!(angle_at(44_445, 50_000), 20_000);
}

#[test]
fn angle_is_always_between_the_bounds() {
    let heights: [u32; 6] = [0, 1, 7, 50_000, 180_001, u32::MAX];
    for height in heights {
        let mut offset: i32 = -200_000;
        while offset <= 200_000 {
            if height != 0 || offset != 0 {
                let angle = angle_at(offset, height);
                assert!(MIN_ANGLE <= angle && angle <= MAX_ANGLE);
            }
            offset += 997;
        }
    }
}

#[test]
fn angle_never_grows_as_the_strike_moves_down() {
    let mut last = angle_at(-1_000, 50_000);
    let mut offset: i32 = -999;
    while offset <= 51_000 {
        let angle = angle_at(offset, 50_000);
        assert!(angle <= last);
        last = angle;
        offset += 1;
    }
}

#[test]
fn angle_falls_with_every_step_between_the_bounds() {
    let mut offset: i32 = 5_556;
    while offset < 44_444 {
        assert!(angle_at(offset, 50_000) > angle_at(offset + 1, 50_000));
        offset += 1;
    }
}

#[test]
fn paddle_without_height_sends_the_puck_off_at_a_bound() {
    assert_eq!(angle_at(5, 0), 20_000);
    assert_eq!(angle_at(-5, 0), 160_000);
}

#[test]
fn left_paddle_turns_the_puck_to_a_quarter_turn_less_the_angle() {
    assert_eq!(heading_after(144_000, Side::Left), -54_000);
    assert_eq!(heading_after(90_000, Side::Left), 0);
    assert_eq!(heading_after(20_000, Side::Left), 70_000);
    assert_eq!(heading_after(160_000, Side::Left), -70_000);
}

#[test]
fn right_paddle_turns_the_puck_to_the_angle_and_a_quarter_turn() {
    assert_eq!(heading_after(144_000, Side::Right), 234_000);
    assert_eq!(heading_after(90_000, Side::Right), 180_000);
    assert_eq!(heading_after(20_000, Side::Right), 110_000);
    assert_eq!(heading_after(160_000, Side::Right), 250_000);
}

#[test]
fn sides_give_different_headings_unless_the_angle_is_zero() {
    assert_eq!(heading_after(0, Side::Left), heading_after(0, Side::Right));
    let mut angle: i32 = -180_000;
    while angle <= 180_000 {
        if angle != 0 {
            assert_ne!(heading_after(angle, Side::Left), heading_after(angle, Side::Right));
        }
        angle += 250;
    }
}

#[test]
fn heading_is_exact_at_the_ends_of_the_angle_range() {
    assert_eq!(heading_after(i32::MAX, Side::Right), 2_147_573_647);
    assert_eq!(heading_after(i32::MIN, Side::Left), 2_147_573_648);
    assert_eq!(heading_after(i32::MIN, Side::Right), -2_147_393_648);
}

#[test]
fn turning_the_puck_changes_nothing_but_its_heading() {
    let mut puck = Puck {
        radius: 10_000,
        pos: Vec2 { x: 30_000, y: 150_000 },
        speed: Vec2 { x: 200_000, y: -200_000 },
        heading: 180_000,
    };
    puck.set_y_angle(126_000, &Side::Left);
    assert_eq!(
        puck,
        Puck {
            radius: 10_000,
            pos: Vec2 { x: 30_000, y: 150_000 },
            speed: Vec2 { x: 200_000, y: -200_000 },
            heading: -36_000,
        }
    );
}
