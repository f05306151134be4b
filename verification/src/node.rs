//! The building blocks of every entity: a box in the world that can be hidden,
//! and the same box with a cyclic animation on top.

use crate::clock::time_between;
use crate::clock::millis_since;
use crate::clock::spec_time_between;
use crate::geometry::round_coordinate;
use crate::geometry::spec_box_collisions;
use crate::geometry::spec_round;
use crate::geometry::Vector2;
use std::time::Instant;
use vstd::prelude::*;

verus! {

/// The way an entity faces. The ordinal of a direction selects a column of
/// the sprite sheet, so it is part of the interface.
#[derive(Clone, Copy, Debug, PartialEq, Eq, Structural)]
pub enum Direction {
    UP,
    LEFT,
    DOWN,
    RIGHT,
}

impl Direction {
    /// Column of the sprite sheet that shows this direction.
    pub open spec fn spec_ordinal(self) -> int {
        match self {
            Direction::UP => 0,
            Direction::LEFT => 1,
            Direction::DOWN => 2,
            Direction::RIGHT => 3,
        }
    }

    /// Column of the sprite sheet that shows this direction.
    pub fn ordinal(self) -> (column: i32)
        ensures
            column == self.spec_ordinal(),
    {
        match self {
            Direction::UP => 0,
            Direction::LEFT => 1,
            Direction::DOWN => 2,
            Direction::RIGHT => 3,
        }
    }
}

/// The screens of the game.
#[derive(Clone, Copy, Debug, PartialEq, Eq, Structural)]
pub enum Gamestate {
    Play,
    GameOver,
    NextLevel,
    MainMenu,
    OptionMenu,
}

/// The colour that an image is multiplied with when it is drawn.
#[derive(Clone, Copy, Debug, PartialEq, Eq, Structural)]
pub enum Tint {
    /// Leaves the image as it is.
    White,
    /// The colour of a button at rest.
    Blue,
    /// The colour of a button that blinks, and of digits.
    Orange,
}

/// What a renderer needs to draw one image: the part of the texture to take,
/// where in the world to put it, whether to turn it upside down, and the
/// colour to multiply it with. The two corners are whole units.
#[derive(Clone, Copy, Debug, PartialEq, Eq, Structural)]
pub struct Sprite {
    pub frame_x: i32,
    pub frame_y: i32,
    pub frame_width: i32,
    pub frame_height: i32,
    pub x: i32,
    pub y: i32,
    pub width: i32,
    pub height: i32,
    pub flipped: bool,
    pub tint: Tint,
}

/// A box in the world that is either shown or hidden.
#[derive(Clone, Copy, Debug, PartialEq, Eq, Structural)]
pub struct VisibleNode {
    pub pos: Vector2,
    pub size: Vector2,
    pub available: bool,
}

impl VisibleNode {
    /// The sprite that shows this box with the texture frame at
    /// `(frame_x, frame_y)`.
    pub open spec fn spec_sprite(self, frame_x: int, frame_y: int) -> Sprite {
        Sprite {
            frame_x: spec_round(frame_x) as i32,
            frame_y: spec_round(frame_y) as i32,
            frame_width: self.size.x,
            frame_height: self.size.y,
            x: spec_round(self.pos.x as int) as i32,
            y: spec_round(self.pos.y as int) as i32,
            width: self.size.x,
            height: self.size.y,
            flipped: false,
            tint: Tint::White,
        }
    }

    /// Whether this box and the box at `(el_x, el_y)` of size `el_w` by `el_h`
    /// share interior points.
    pub open spec fn spec_collision(self, el_x: int, el_y: int, el_w: int, el_h: int) -> bool {
        spec_box_collisions(
            self.pos.x as int,
            self.pos.y as int,
            self.size.x as int,
            self.size.y as int,
            el_x,
            el_y,
            el_w,
            el_h,
        )
    }

    /// A shown box at `(x, y)` of size `w` by `h`.
    pub fn create_vn(x: i32, y: i32, w: i32, h: i32) -> (node: Self)
        ensures
            node == (VisibleNode { pos: Vector2 { x, y }, size: Vector2 { x: w, y: h }, available: true }),
    {
        VisibleNode { pos: Vector2 { x, y }, size: Vector2 { x: w, y: h }, available: true }
    }

    /// The sprite to draw for this box, or nothing while the box is hidden.
    pub fn draw(&self, frame_x: i32, frame_y: i32) -> (sprite: Option<Sprite>)
        ensures
            sprite == if self.available {
                Some(self.spec_sprite(frame_x as int, frame_y as int))
            } else {
                None
            },
    {
        if !self.available {
            return None;
        }
        Some(
            Sprite {
                frame_x: round_coordinate(frame_x),
                frame_y: round_coordinate(frame_y),
                frame_width: self.size.x,
                frame_height: self.size.y,
                x: round_coordinate(self.pos.x),
                y: round_coordinate(self.pos.y),
                width: self.size.x,
                height: self.size.y,
                flipped: false,
                tint: Tint::White,
            },
        )
    }

    /// Tests this box against the box at `(el_x, el_y)` of size `el_w` by
    /// `el_h`. Boxes that only touch along an edge do not collide.
    pub fn collision(&self, el_x: i64, el_y: i64, el_w: i64, el_h: i64) -> (hit: bool)
        ensures
            hit == self.spec_collision(el_x as int, el_y as int, el_w as int, el_h as int),
    {
        VisibleNode::box_collisions(
            self.pos.x as i64,
            self.pos.y as i64,
            self.size.x as i64,
            self.size.y as i64,
            el_x,
            el_y,
            el_w,
            el_h,
        )
    }

    fn box_collisions(
        x_1: i64,
        y_1: i64,
        w_1: i64,
        h_1: i64,
        x_2: i64,
        y_2: i64,
        w_2: i64,
        h_2: i64,
    ) -> (hit: bool)
        ensures
            hit == spec_box_collisions(
                x_1 as int,
                y_1 as int,
                w_1 as int,
                h_1 as int,
                x_2 as int,
                y_2 as int,
                w_2 as int,
                h_2 as int,
            ),
    {
        ((x_2 as i128) < x_1 as i128 + w_1 as i128) && (x_2 as i128 + w_2 as i128 > x_1 as i128) && ((y_2 as i128)
            < y_1 as i128 + h_1 as i128) && (y_2 as i128 + h_2 as i128 > y_1 as i128)
    }
}

/// A box with an animation of `animation_steps_count` frames. The frame
/// moves on whenever more than `animation_speed` milliseconds have passed
/// since it last did. Times count milliseconds since `clock` was read.
pub struct AnimatedNode {
    pub node: VisibleNode,
    pub animation_steps_count: u8,
    pub animation_step: u8,
    pub animation_speed: u32,
    /// The reading of the clock from which this node counts its times.
    pub clock: Instant,
    /// When the frame last changed.
    pub last_time_point: u128,
}

impl AnimatedNode {
    /// The frame that follows the current one.
    pub open spec fn spec_next_step(self) -> u8 {
        ((self.animation_step + 1) % (self.animation_steps_count as int)) as u8
    }

    /// Whether the frame is due to change at the time `now`.
    pub open spec fn spec_due(self, now: u128) -> bool {
        spec_time_between(now, self.last_time_point) > self.animation_speed
    }

    /// The node after it has looked at the clock at the time `now`: on the
    /// next frame, which it shows since `now`, if the frame was due to
    /// change, and as it was if not.
    pub open spec fn spec_advanced(self, now: u128) -> AnimatedNode {
        if self.spec_due(now) {
            AnimatedNode { animation_step: self.spec_next_step(), last_time_point: now, ..self }
        } else {
            self
        }
    }

    /// A shown box at `(x, y)` of size `w` by `h` on the first frame of its
    /// animation, which it shows since the time 0 of a clock that is read
    /// now.
    pub fn create_an(x: i32, y: i32, w: i32, h: i32, animation_steps_count: u8, animation_speed: u32) -> (an: Self)
        ensures
            an.node == (VisibleNode { pos: Vector2 { x, y }, size: Vector2 { x: w, y: h }, available: true }),
            an.animation_steps_count == animation_steps_count,
            an.animation_step == 0,
            an.animation_speed == animation_speed,
            an.last_time_point == 0,
    {
        let clock = Instant::now();
        let animation_step: u8 = 0;
        Self {
            node: VisibleNode::create_vn(x, y, w, h),
            animation_steps_count,
            animation_step,
            animation_speed,
            clock,
            last_time_point: 0,
        }
    }

    /// Moves the animation on by one frame if, at the time `now`, more than
    /// the animation's speed has passed since the frame last changed. Says
    /// whether the frame changed.
    pub fn advance(&mut self, now: u128) -> (stepped: bool)
        requires
            old(self).animation_steps_count > 0,
            old(self).animation_step < 255,
        ensures
            stepped == old(self).spec_due(now),
            *final(self) == old(self).spec_advanced(now),
            final(self).animation_step < final(self).animation_steps_count || final(self).animation_step
                == old(self).animation_step,
    {
        if time_between(now, self.last_time_point) > self.animation_speed as u128 {
            self.animation_step = (self.animation_step + 1) % self.animation_steps_count;
            self.last_time_point = now;
            true
        } else {
            false
        }
    }

    /// Reads the clock and moves the animation on by one frame if its time
    /// has come. Whatever the clock says, the node is then as `spec_advanced`
    /// gives it for that time.
    pub fn cycle_animation(&mut self)
        requires
            old(self).animation_steps_count > 0,
            old(self).animation_step < 255,
        ensures
            exists|now: u128| *final(self) == #[trigger] old(self).spec_advanced(now),
            final(self).animation_step < final(self).animation_steps_count || final(self).animation_step
                == old(self).animation_step,
    {
        let now = millis_since(&self.clock);
        self.advance(now);
    }
}

impl std::ops::Deref for AnimatedNode {
    type Target = VisibleNode;

    /// The box under the animation.
    fn deref(&self) -> (node: &VisibleNode)
        ensures
            *node == self.node,
    {
        &self.node
    }
}

} // verus!
