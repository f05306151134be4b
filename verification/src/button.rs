//! A button that blinks for a while after it has been pressed, and is ready
//! when the blinking is over.
//!
//! A button counts its times in milliseconds on its own clock, which it
//! reads when it is made. The times are part of its view, so the rules say
//! when a pressed button is ready.

use crate::clock::millis_since;
use crate::clock::spec_time_between;
use crate::clock::time_between;
use crate::geometry::round_coordinate;
use crate::geometry::spec_round;
use crate::geometry::Vector2;
use crate::node::Sprite;
use crate::node::Tint;
use std::time::Instant;
use vstd::prelude::*;

verus! {

/// Milliseconds from the press of a button until it is ready.
pub const BUTTON_DURATION: u32 = 1000;

/// Milliseconds after which a pressed button changes its colour.
pub const BUTTON_BLINK: u32 = 100;

/// What the rules read of a button.
pub struct ButtonView {
    pub pos: Vector2,
    pub size: Vector2,
    /// Whether the button shows the colour that it has at rest.
    pub animation_status: bool,
    pub pressed: bool,
    pub ready: bool,
    /// When the button was last pressed.
    pub start: u128,
    /// When the button last changed its colour.
    pub delta: u128,
}

impl ButtonView {
    /// The button as it is made, and as it is again after it has been used.
    pub open spec fn at_rest(self) -> bool {
        self.animation_status && !self.pressed && !self.ready
    }

    /// The button after it has been pressed at the time `now`: its time
    /// runs from `now`.
    pub open spec fn clicked(self, now: u128) -> ButtonView {
        ButtonView { pressed: true, start: now, ..self }
    }

    /// Whether this is `before` after it has been pressed once, at whatever
    /// time.
    pub open spec fn clicked_from(self, before: ButtonView) -> bool {
        exists|now: u128| self == #[trigger] before.clicked(now)
    }

    /// The button back at rest.
    pub open spec fn cleared(self) -> ButtonView {
        ButtonView { animation_status: true, ready: false, pressed: false, ..self }
    }

    /// The button once it has been asked whether it is ready: a ready button
    /// goes back to rest, another stays as it is.
    pub open spec fn asked(self) -> ButtonView {
        if self.ready { self.cleared() } else { self }
    }

    /// Whether the time of a pressed button is over at the time `now`:
    /// `BUTTON_DURATION` or more has passed since the press.
    pub open spec fn due(self, now: u128) -> bool {
        spec_time_between(now, self.start) >= BUTTON_DURATION
    }

    /// Whether the button is to change its colour at the time `now`: its
    /// time is not over, and `BUTTON_BLINK` or more has passed since it last
    /// changed its colour.
    pub open spec fn blinks(self, now: u128) -> bool {
        !self.due(now) && spec_time_between(now, self.delta) >= BUTTON_BLINK
    }

    /// The button after one step of its animation at the time `now`. Once
    /// `BUTTON_DURATION` has passed since the press the button is ready;
    /// until then it changes its colour every `BUTTON_BLINK`.
    pub open spec fn animated(self, now: u128) -> ButtonView {
        if self.due(now) {
            ButtonView { ready: true, ..self }
        } else if self.blinks(now) {
            ButtonView { animation_status: !self.animation_status, delta: now, ..self }
        } else {
            self
        }
    }

    /// The button after it has been drawn at the time `now`. Only a button
    /// that is pressed and not yet ready is animated.
    pub open spec fn drawn(self, now: u128) -> ButtonView {
        if self.pressed && !self.ready {
            self.animated(now)
        } else {
            self
        }
    }

    /// Whether this is `before` after it has been drawn once, at whatever
    /// time.
    pub open spec fn may_follow(self, before: ButtonView) -> bool {
        exists|now: u128| self == #[trigger] before.drawn(now)
    }

    /// The sprite that shows the button: the whole texture, upside down, blue
    /// at rest and orange while it blinks.
    pub open spec fn sprite(self) -> Sprite {
        Sprite {
            frame_x: 0,
            frame_y: 0,
            frame_width: self.size.x,
            frame_height: self.size.y,
            x: spec_round(self.pos.x as int) as i32,
            y: spec_round(self.pos.y as int) as i32,
            width: self.size.x,
            height: self.size.y,
            flipped: true,
            tint: if self.animation_status { Tint::Blue } else { Tint::Orange },
        }
    }
}

/// A button of a menu.
pub struct AnimatedButton {
    pos: Vector2,
    size: Vector2,
    animation_duration: u32,
    animation_speed: u32,
    animation_status: bool,
    clock: Instant,
    start: u128,
    delta: u128,
    pressed: bool,
    ready: bool,
}

impl View for AnimatedButton {
    type V = ButtonView;

    closed spec fn view(&self) -> ButtonView {
        ButtonView {
            pos: self.pos,
            size: self.size,
            animation_status: self.animation_status,
            pressed: self.pressed,
            ready: self.ready,
            start: self.start,
            delta: self.delta,
        }
    }
}

impl AnimatedButton {
    /// Whether the button has the timing of its kind.
    pub closed spec fn wf(&self) -> bool {
        self.animation_duration == BUTTON_DURATION && self.animation_speed == BUTTON_BLINK
    }

    /// A button at rest at `(x, y)` of size `w` by `h`, whose clock is read
    /// now and stands at 0.
    pub fn new(x: i32, y: i32, w: i32, h: i32) -> (button: Self)
        ensures
            button.wf(),
            button@ == (ButtonView {
                pos: Vector2 { x, y },
                size: Vector2 { x: w, y: h },
                animation_status: true,
                pressed: false,
                ready: false,
                start: 0,
                delta: 0,
            }),
    {
        Self {
            pos: Vector2 { x, y },
            size: Vector2 { x: w, y: h },
            animation_duration: BUTTON_DURATION,
            animation_speed: BUTTON_BLINK,
            animation_status: true,
            clock: Instant::now(),
            start: 0,
            delta: 0,
            pressed: false,
            ready: false,
        }
    }

    /// One step of the animation at the time `now`. Says whether the colour
    /// changed.
    pub fn animate(&mut self, now: u128) -> (blinked: bool)
        requires
            old(self).wf(),
        ensures
            final(self).wf(),
            final(self)@ == old(self)@.animated(now),
            blinked == old(self)@.blinks(now),
    {
        if time_between(now, self.start) >= self.animation_duration as u128 {
            self.ready = true;
            return false;
        }
        if time_between(now, self.delta) >= self.animation_speed as u128 {
            self.animation_status = !self.animation_status;
            self.delta = now;
            return true;
        }
        false
    }

    fn cycle_animation(&mut self)
        requires
            old(self).wf(),
        ensures
            final(self).wf(),
            exists|now: u128| final(self)@ == #[trigger] old(self)@.animated(now),
    {
        let now = millis_since(&self.clock);
        self.animate(now);
    }

    fn sprite(&self) -> (sprite: Sprite)
        ensures
            sprite == self@.sprite(),
    {
        Sprite {
            frame_x: 0,
            frame_y: 0,
            frame_width: self.size.x,
            frame_height: self.size.y,
            x: round_coordinate(self.pos.x),
            y: round_coordinate(self.pos.y),
            width: self.size.x,
            height: self.size.y,
            flipped: true,
            tint: if self.animation_status { Tint::Blue } else { Tint::Orange },
        }
    }

    /// Animates the button at the time `now` if it is pressed and not yet
    /// ready, and gives the sprite to draw.
    pub fn draw_at(&mut self, now: u128) -> (sprite: Sprite)
        requires
            old(self).wf(),
        ensures
            final(self).wf(),
            final(self)@ == old(self)@.drawn(now),
            sprite == final(self)@.sprite(),
    {
        if self.pressed && !self.ready {
            self.animate(now);
        }
        self.sprite()
    }

    /// Reads the clock, animates the button if it is pressed and not yet
    /// ready, and gives the sprite to draw. Whatever the clock says, the
    /// button is then as `drawn` gives it for that time.
    pub fn draw(&mut self) -> (sprite: Sprite)
        requires
            old(self).wf(),
        ensures
            final(self).wf(),
            final(self)@.may_follow(old(self)@),
            sprite == final(self)@.sprite(),
    {
        if self.pressed && !self.ready {
            self.cycle_animation();
            proof {
                let now = choose|now: u128| self@ == #[trigger] old(self)@.animated(now);
                assert(self@ == old(self)@.drawn(now));
            }
        } else {
            assert(self@ == old(self)@.drawn(0));
        }
        self.sprite()
    }

    /// Presses the button at the time `now`: its time runs from `now`.
    pub fn click_at(&mut self, now: u128)
        requires
            old(self).wf(),
        ensures
            final(self).wf(),
            final(self)@ == old(self)@.clicked(now),
    {
        self.start = now;
        self.pressed = true;
    }

    /// Reads the clock and presses the button at that time. Whatever the
    /// clock says, the button is then as `clicked` gives it for that time.
    pub fn click(&mut self)
        requires
            old(self).wf(),
        ensures
            final(self).wf(),
            final(self)@.clicked_from(old(self)@),
    {
        let now = millis_since(&self.clock);
        self.click_at(now);
    }

    /// Puts the button back at rest.
    pub fn reset(&mut self)
        requires
            old(self).wf(),
        ensures
            final(self).wf(),
            final(self)@ == old(self)@.cleared(),
    {
        self.animation_status = true;
        self.ready = false;
        self.pressed = false;
    }

    /// Says whether the button is ready, and leaves it as it is.
    pub fn peek_ready(&self) -> (ready: bool)
        ensures
            ready == self@.ready,
    {
        self.ready
    }

    /// Says whether the button is ready, and puts a ready button back at
    /// rest, so that it is ready once per press.
    pub fn is_ready(&mut self) -> (ready: bool)
        requires
            old(self).wf(),
        ensures
            final(self).wf(),
            ready == old(self)@.ready,
            final(self)@ == old(self)@.asked(),
    {
        if self.ready {
            self.reset();
            return true;
        } else {
            return false;
        }
    }
}

} // verus!
