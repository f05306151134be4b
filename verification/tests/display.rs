use cheese_adventure::display::digits;
use cheese_adventure::display::push_digit_bars;
use cheese_adventure::display::Bar;
use cheese_adventure::display::NumberDisplay;
use cheese_adventure::geometry::Vector2;
use std::time::Instant;

fn wait_millis(millis: u128) {
    let start = Instant::now();
    while start.elapsed().as_millis() < millis {}
}

fn bar(x: i64, y: i64, width: i32, height: i32) -> Bar {
    Bar { x, y, width, height }
}

fn segments_of(d: u8) -> Vec<Bar> {
    let mut bars = Vec::new();
    push_digit_bars(&mut bars, d, 0, 0);
    bars
}

#[test]
fn digits_come_leading_first() {
    assert_eq!(digits(0), vec![0]);
    assert_eq!(digits(7), vec![7]);
    assert_eq!(digits(10), vec![1, 0]);
    assert_eq!(digits(100), vec![1, 0, 0]);
    assert_eq!(digits(49), vec![4, 9]);
    assert_eq!(digits(1234567890), vec![1, 2, 3, 4, 5, 6, 7, 8, 9, 0]);
    assert_eq!(digits(u32::MAX), vec![4, 2, 9, 4, 9, 6, 7, 2, 9, 5]);
}

#[test]
fn each_digit_lights_its_segments() {
    let bottom = bar(100, 0, 200, 100);
    let lower_right = bar(300, -200, 100, 200);
    let upper_right = bar(300, -500, 100, 200);
    let top = bar(100, -600, 200, 100);
    let upper_left = bar(0, -500, 100, 200);
    let lower_left = bar(0, -200, 100, 200);
    let middle = bar(100, -300, 200, 100);
    assert_eq!(segments_of(0), vec![bottom, lower_right, upper_right, top, upper_left, lower_left]);
    assert_eq!(segments_of(1), vec![lower_right, upper_right]);
    assert_eq!(segments_of(2), vec![bottom, lower_right, top, upper_left, middle]);
    assert_eq!(segments_of(3), vec![bottom, lower_right, upper_right, top, middle]);
    assert_eq!(segments_of(4), vec![lower_right, upper_right, lower_left, middle]);
    assert_eq!(segments_of(5), vec![bottom, upper_right, top, lower_left, middle]);
    assert_eq!(segments_of(6), vec![bottom, upper_right, top, upper_left, lower_left, middle]);
    assert_eq!(segments_of(7), vec![bottom, lower_right, upper_right]);
    assert_eq!(
        segments_of(8),
        vec![bottom, lower_right, upper_right, top, upper_left, lower_left, middle]
    );
    assert_eq!(segments_of(9), vec![bottom, lower_right, upper_right, top, lower_left, middle]);
}

#[test]
fn push_digit_bars_keeps_what_is_there() {
    let mut bars = vec![bar(1, 2, 3, 4)];
    push_digit_bars(&mut bars, 1, 1000, 6200);
    assert_eq!(bars, vec![bar(1, 2, 3, 4), bar(1300, 6000, 100, 200), bar(1300, 5700, 100, 200)]);
}

#[test]
fn a_new_display_shows_zero() {
    let mut display = NumberDisplay::new(100, 6200);
    assert_eq!(display.value, 0);
    assert_eq!(display.get_value(), 0);
    assert_eq!(*display.get_pos(), Vector2 { x: 100, y: 6200 });
    assert!(display.has_escalated());
    let bars = display.draw();
    assert_eq!(
        bars,
        vec![
            bar(200, 6200, 200, 100),
            bar(400, 6000, 100, 200),
            bar(400, 5700, 100, 200),
            bar(200, 5600, 200, 100),
            bar(100, 5700, 100, 200),
            bar(100, 6000, 100, 200),
        ]
    );
}

#[test]
fn the_digits_stand_five_units_apart() {
    let mut display = NumberDisplay::new(4000, 3000);
    display.set_value(71);
    let bars = display.draw();
    assert_eq!(
        bars,
        vec![
            bar(4100, 3000, 200, 100),
            bar(4300, 2800, 100, 200),
            bar(4300, 2500, 100, 200),
            bar(4800, 2800, 100, 200),
            bar(4800, 2500, 100, 200),
        ]
    );
    assert_eq!(display.get_value(), 71);
}

#[test]
fn every_digit_starts_on_a_whole_unit() {
    let mut display = NumberDisplay::new(170, 6299);
    display.set_value(11);
    assert_eq!(
        display.draw(),
        vec![
            bar(400, 6000, 100, 200),
            bar(400, 5700, 100, 200),
            bar(900, 6000, 100, 200),
            bar(900, 5700, 100, 200),
        ]
    );
    let mut left = NumberDisplay::new(-170, -6299);
    left.set_value(11);
    assert_eq!(
        left.draw(),
        vec![
            bar(200, -6400, 100, 200),
            bar(200, -6700, 100, 200),
            bar(600, -6400, 100, 200),
            bar(600, -6700, 100, 200),
        ]
    );
}

#[test]
fn a_display_far_out_still_draws() {
    let mut display = NumberDisplay::new(i32::MAX, i32::MIN);
    display.set_value(u32::MAX);
    let bars = display.draw();
    assert_eq!(bars.len(), 4 + 5 + 6 + 4 + 6 + 6 + 3 + 5 + 6 + 5);
    assert_eq!(bars[0], bar(2147483900, -2147483800, 100, 200));
    assert_eq!(bars[bars.len() - 1], bar(2147488200, -2147483900, 200, 100));
}

#[test]
fn escalate_starts_the_reveal_at_zero() {
    let mut display = NumberDisplay::new(2000, 4500);
    display.set_value(3);
    display.escalate();
    assert_eq!(display.get_value(), 0);
    assert!(!display.has_escalated());
}

#[test]
fn count_goes_one_up_after_more_than_fifty_milliseconds() {
    let mut display = NumberDisplay::new(2000, 4500);
    display.set_value(3);
    display.escalate_at(1000);
    assert_eq!(display.get_value(), 0);
    assert!(!display.count(0));
    assert!(!display.count(1000));
    assert!(!display.count(1050));
    assert_eq!(display.get_value(), 0);
    assert!(display.count(1051));
    assert_eq!(display.get_value(), 1);
    assert!(!display.count(1101));
    assert!(display.count(1102));
    assert_eq!(display.get_value(), 2);
    assert!(display.count(u128::MAX));
    assert_eq!(display.get_value(), 3);
    assert!(display.has_escalated());
    assert!(!display.count(u128::MAX));
    assert_eq!(display.get_value(), 3);
}

#[test]
fn draw_at_counts_only_while_a_reveal_runs() {
    let mut plain = NumberDisplay::new(100, 6200);
    plain.set_value(5);
    assert_eq!(plain.draw_at(100000).len(), 5);
    assert_eq!(plain.get_value(), 5);
    let mut reveal = NumberDisplay::new(2000, 4500);
    reveal.set_value(2);
    reveal.escalate_at(300);
    assert_eq!(reveal.draw_at(350).len(), 6);
    assert_eq!(reveal.get_value(), 0);
    assert_eq!(reveal.draw_at(351).len(), 6);
    assert_eq!(reveal.get_value(), 1);
    assert_eq!(reveal.draw_at(402).len(), 2);
    assert_eq!(reveal.get_value(), 2);
    assert_eq!(reveal.draw_at(9000).len(), 5);
    assert_eq!(reveal.get_value(), 2);
}

#[test]
fn a_display_without_a_reveal_does_not_count_when_drawn() {
    let mut display = NumberDisplay::new(100, 6200);
    display.set_value(5);
    wait_millis(60);
    display.draw();
    assert_eq!(display.get_value(), 5);
}

#[test]
fn a_reveal_counts_up_as_it_is_drawn() {
    let mut display = NumberDisplay::new(2000, 4500);
    display.set_value(2);
    display.escalate();
    wait_millis(60);
    let shown = display.draw();
    assert_eq!(shown.len(), 6);
    assert_eq!(display.get_value(), 1);
    assert!(!display.has_escalated());
    wait_millis(60);
    let shown = display.draw();
    assert_eq!(shown.len(), 2);
    assert_eq!(display.get_value(), 2);
    assert!(display.has_escalated());
    wait_millis(60);
    let shown = display.draw();
    assert_eq!(shown.len(), 5);
    assert_eq!(display.get_value(), 2);
}

#[test]
fn a_reveal_of_zero_is_over_at_once() {
    let mut display = NumberDisplay::new(2000, 4500);
    display.escalate();
    assert!(display.has_escalated());
    wait_millis(60);
    display.draw();
    assert_eq!(display.get_value(), 0);
}

#[test]
fn translate_moves_the_display() {
    let mut display = NumberDisplay::new(100, 6200);
    display.set_value(9);
    display.translate(2000, 4500);
    assert_eq!(*display.get_pos(), Vector2 { x: 2000, y: 4500 });
    assert_eq!(display.get_value(), 9);
}

#[test]
fn reset_forgets_the_number_and_the_reveal() {
    let mut display = NumberDisplay::new(100, 6200);
    display.set_value(9);
    display.escalate();
    display.reset();
    assert_eq!(display.get_value(), 0);
    assert!(display.has_escalated());
    assert_eq!(*display.get_pos(), Vector2 { x: 100, y: 6200 });
    wait_millis(60);
    display.draw();
    assert_eq!(display.get_value(), 0);
}
