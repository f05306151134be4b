use cheese_adventure::button::AnimatedButton;
use cheese_adventure::node::Sprite;
use cheese_adventure::node::Tint;
use std::time::Instant;

fn wait_millis(millis: u128) {
    let start = Instant::now();
    while start.elapsed().as_millis() < millis {}
}

fn sprite_of(tint: Tint) -> Sprite {
    Sprite {
        frame_x: 0,
        frame_y: 0,
        frame_width: 3000,
        frame_height: 700,
        x: 300,
        y: 2000,
        width: 3000,
        height: 700,
        flipped: true,
        tint,
    }
}

#[test]
fn a_new_button_is_at_rest() {
    let mut button = AnimatedButton::new(300, 2000, 3000, 700);
    assert!(!button.peek_ready());
    assert!(!button.is_ready());
    assert_eq!(button.draw(), sprite_of(Tint::Blue));
}

#[test]
fn a_button_draws_on_whole_units() {
    let mut button = AnimatedButton::new(349, 2050, 3000, 700);
    let sprite = button.draw();
    assert_eq!((sprite.x, sprite.y), (300, 2100));
    assert_eq!((sprite.frame_width, sprite.frame_height), (3000, 700));
    assert!(sprite.flipped);
}

#[test]
fn animate_blinks_until_the_button_is_ready() {
    let mut button = AnimatedButton::new(300, 2000, 3000, 700);
    button.click_at(5000);
    assert!(!button.animate(0));
    assert!(button.animate(5000));
    assert_eq!(button.draw_at(5000).tint, Tint::Orange);
    assert!(!button.animate(5099));
    assert!(button.animate(5100));
    assert_eq!(button.draw_at(5100).tint, Tint::Blue);
    assert!(button.animate(5999));
    assert!(!button.peek_ready());
    assert!(!button.animate(6000));
    assert!(button.peek_ready());
}

#[test]
fn a_button_is_ready_a_second_after_it_was_pressed() {
    let mut button = AnimatedButton::new(300, 2000, 3000, 700);
    button.click_at(700);
    button.animate(1699);
    assert!(!button.peek_ready());
    button.animate(1700);
    assert!(button.peek_ready());
    let mut again = AnimatedButton::new(300, 2000, 3000, 700);
    again.click_at(700);
    again.animate(1600);
    again.click_at(1650);
    again.animate(1700);
    again.animate(2649);
    assert!(!again.peek_ready());
    again.animate(2650);
    assert!(again.peek_ready());
}

#[test]
fn animate_changes_the_colour_every_tenth_of_a_second() {
    let mut button = AnimatedButton::new(300, 2000, 3000, 700);
    button.click_at(0);
    assert!(!button.animate(99));
    assert!(button.animate(100));
    assert!(!button.animate(150));
    assert!(!button.animate(199));
    assert!(button.animate(250));
    assert!(!button.animate(349));
    assert!(button.animate(350));
    assert!(!button.animate(1000));
    assert!(button.peek_ready());
    assert_eq!(button.draw_at(1000), sprite_of(Tint::Orange));
}

#[test]
fn readiness_comes_before_a_blink() {
    let mut button = AnimatedButton::new(300, 2000, 3000, 700);
    button.click_at(0);
    assert!(!button.animate(1000));
    assert!(button.peek_ready());
    assert_eq!(button.draw_at(1000).tint, Tint::Blue);
}

#[test]
fn draw_at_animates_only_a_pressed_button_that_is_not_ready() {
    let mut rest = AnimatedButton::new(300, 2000, 3000, 700);
    assert_eq!(rest.draw_at(5000), sprite_of(Tint::Blue));
    assert!(!rest.peek_ready());
    let mut pressed = AnimatedButton::new(300, 2000, 3000, 700);
    pressed.click_at(4000);
    assert_eq!(pressed.draw_at(4100), sprite_of(Tint::Orange));
    assert_eq!(pressed.draw_at(5000), sprite_of(Tint::Orange));
    assert!(pressed.peek_ready());
    assert_eq!(pressed.draw_at(9000), sprite_of(Tint::Orange));
    assert!(pressed.is_ready());
    assert_eq!(pressed.draw_at(9000), sprite_of(Tint::Blue));
    assert!(!pressed.peek_ready());
}

#[test]
fn is_ready_says_so_once() {
    let mut button = AnimatedButton::new(300, 2000, 3000, 700);
    button.click_at(0);
    button.animate(500);
    button.animate(2000);
    assert!(button.peek_ready());
    assert!(button.is_ready());
    assert!(!button.peek_ready());
    assert!(!button.is_ready());
    assert_eq!(button.draw(), sprite_of(Tint::Blue));
}

#[test]
fn reset_puts_the_button_at_rest() {
    let mut button = AnimatedButton::new(300, 2000, 3000, 700);
    button.click_at(0);
    button.animate(100);
    button.animate(1000);
    button.reset();
    assert!(!button.peek_ready());
    wait_millis(120);
    assert_eq!(button.draw(), sprite_of(Tint::Blue));
    assert!(!button.peek_ready());
}

#[test]
fn a_button_that_is_not_pressed_does_not_run() {
    let mut button = AnimatedButton::new(300, 2000, 3000, 700);
    wait_millis(1100);
    assert_eq!(button.draw(), sprite_of(Tint::Blue));
    assert!(!button.peek_ready());
}

#[test]
fn a_pressed_button_blinks_and_is_ready_after_a_second() {
    let mut button = AnimatedButton::new(300, 2000, 3000, 700);
    wait_millis(1100);
    button.click();
    let pressed = Instant::now();
    wait_millis(110);
    let blinked = button.draw();
    if pressed.elapsed().as_millis() < 1000 {
        assert_eq!(blinked.tint, Tint::Orange);
        assert!(!button.peek_ready());
    }
    wait_millis(1000);
    button.draw();
    assert!(button.peek_ready());
    assert!(button.is_ready());
    assert!(!button.is_ready());
}
