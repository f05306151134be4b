use cheese_adventure::geometry::abs;
use cheese_adventure::geometry::farther_than;
use cheese_adventure::geometry::round;
use cheese_adventure::geometry::round_coordinate;
use cheese_adventure::geometry::step_down;
use cheese_adventure::geometry::step_up;
use cheese_adventure::geometry::trunc;
use cheese_adventure::geometry::Vector2;
use cheese_adventure::geometry::UNIT;

#[test]
fn one_unit_is_a_hundred_steps() {
    assert_eq!(UNIT, 100);
}

#[test]
fn round_goes_to_the_nearest_whole_unit() {
    assert_eq!(round(0), 0);
    assert_eq!(round(49), 0);
    assert_eq!(round(51), 100);
    assert_eq!(round(149), 100);
    assert_eq!(round(1234), 1200);
    assert_eq!(round(1251), 1300);
    assert_eq!(round(-49), 0);
    assert_eq!(round(-51), -100);
    assert_eq!(round(-1234), -1200);
}

#[test]
fn round_sends_halves_away_from_zero() {
    assert_eq!(round(50), 100);
    assert_eq!(round(150), 200);
    assert_eq!(round(-50), -100);
    assert_eq!(round(-150), -200);
}

#[test]
fn round_takes_the_widest_difference_of_coordinates() {
    let widest = i32::MAX as i64 - i32::MIN as i64;
    assert_eq!(round(widest), 4294967300);
    assert_eq!(round(-widest), -4294967300);
}

#[test]
fn round_coordinate_stays_a_coordinate() {
    assert_eq!(round_coordinate(i32::MAX), 2147483600);
    assert_eq!(round_coordinate(i32::MIN), -2147483600);
    assert_eq!(round_coordinate(5550), 5600);
    assert_eq!(round_coordinate(-5549), -5500);
}

#[test]
fn trunc_drops_the_fraction_towards_zero() {
    assert_eq!(trunc(0), 0);
    assert_eq!(trunc(99), 0);
    assert_eq!(trunc(100), 100);
    assert_eq!(trunc(199), 100);
    assert_eq!(trunc(-99), 0);
    assert_eq!(trunc(-100), -100);
    assert_eq!(trunc(-199), -100);
}

#[test]
fn abs_drops_the_sign() {
    assert_eq!(abs(0), 0);
    assert_eq!(abs(300), 300);
    assert_eq!(abs(-300), 300);
}

#[test]
fn step_up_moves_by_the_speed() {
    assert_eq!(step_up(1000, 20, 5500), 1020);
    assert_eq!(step_up(0, 8, 5800), 8);
    assert_eq!(step_up(-100, 20, 5500), -80);
}

#[test]
fn step_up_stops_at_the_limit() {
    assert_eq!(step_up(5480, 20, 5500), 5500);
    assert_eq!(step_up(5490, 20, 5500), 5500);
    assert_eq!(step_up(5499, 20, 5500), 5500);
    assert_eq!(step_up(5500, 20, 5500), 5500);
    assert_eq!(step_up(6000, 20, 5500), 6000);
    assert_eq!(step_up(i32::MAX - 1, i32::MAX, i32::MAX), i32::MAX);
}

#[test]
fn step_down_moves_by_the_speed() {
    assert_eq!(step_down(1000, 20, 0), 980);
    assert_eq!(step_down(5800, 8, 0), 5792);
}

#[test]
fn step_down_stops_at_the_limit() {
    assert_eq!(step_down(20, 20, 0), 0);
    assert_eq!(step_down(10, 20, 0), 0);
    assert_eq!(step_down(1, 20, 0), 0);
    assert_eq!(step_down(0, 20, 0), 0);
    assert_eq!(step_down(-5, 20, 0), -5);
    assert_eq!(step_down(i32::MIN + 1, i32::MAX, i32::MIN), i32::MIN);
}

#[test]
fn farther_than_compares_the_true_distance() {
    let origin = Vector2 { x: 0, y: 0 };
    assert!(!farther_than(&origin, &Vector2 { x: 1200, y: 1600 }, 2000));
    assert!(farther_than(&origin, &Vector2 { x: 1201, y: 1600 }, 2000));
    assert!(farther_than(&origin, &Vector2 { x: 1200, y: -1601 }, 2000));
    assert!(!farther_than(&origin, &Vector2 { x: 2000, y: 0 }, 2000));
    assert!(farther_than(&origin, &Vector2 { x: 2001, y: 0 }, 2000));
    assert!(!farther_than(&origin, &origin, 0));
    assert!(farther_than(&origin, &Vector2 { x: 1, y: 0 }, 0));
}

#[test]
fn farther_than_takes_the_corners_of_the_coordinates() {
    let low = Vector2 { x: i32::MIN, y: i32::MIN };
    let high = Vector2 { x: i32::MAX, y: i32::MAX };
    assert!(farther_than(&low, &high, i32::MAX));
    assert!(!farther_than(&low, &low, i32::MAX));
}

#[test]
fn vectors_compare_by_their_coordinates() {
    assert_eq!(Vector2 { x: 3, y: 4 }, Vector2 { x: 3, y: 4 });
    assert_ne!(Vector2 { x: 3, y: 4 }, Vector2 { x: 4, y: 3 });
}
