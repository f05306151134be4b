//! The four kinds of things in a level: the mouse that the player steers, the
//! cheese it collects, the spiders that hunt it and the exit it leaves by.
//!
//! Each kind has a view that holds what the rules of the game read: where it
//! is, which way it faces, whether it is there, which frame it shows. Sizes,
//! speeds and animation timings are fixed per kind.

use crate::clock::spec_time_between;
use crate::geometry::abs;
use crate::geometry::round;
use crate::geometry::spec_abs;
use crate::geometry::spec_box_collisions;
use crate::geometry::spec_round;
use crate::geometry::spec_step_down;
use crate::geometry::spec_step_up;
use crate::geometry::step_down;
use crate::geometry::step_up;
use crate::geometry::Vector2;
use crate::input::Input;
use crate::node::AnimatedNode;
use crate::node::Direction;
use crate::node::Sprite;
use crate::node::Tint;
use crate::node::VisibleNode;
use vstd::prelude::*;

verus! {

/// Side of the square mouse.
pub const MOUSE_SIZE: i32 = 900;

/// Distance that the mouse covers in one frame.
pub const MOUSE_SPEED: i32 = 20;

/// Largest coordinate at which the mouse still stands inside the arena.
pub const MOUSE_LIMIT: i32 = 5500;

/// Number of frames of the mouse's animation.
pub const MOUSE_FRAMES: u8 = 8;

/// Milliseconds that the mouse shows one frame.
pub const MOUSE_FRAME_TIME: u32 = 200;

/// Distance from the mouse's corner to the corner of its hitbox.
pub const HITBOX_INSET: i32 = 300;

/// Side of the mouse's square hitbox.
pub const HITBOX_SIZE: i32 = 300;

/// Side of a square cheese.
pub const CHEESE_SIZE: i32 = 500;

/// Number of frames of a cheese's animation.
pub const CHEESE_FRAMES: u8 = 5;

/// Milliseconds that a cheese shows one frame.
pub const CHEESE_FRAME_TIME: u32 = 200;

/// Side of a square spider.
pub const SPIDER_SIZE: i32 = 600;

/// Distance that a spider covers in one frame.
pub const SPIDER_SPEED: i32 = 8;

/// Largest coordinate at which a spider still stands inside the arena.
pub const SPIDER_LIMIT: i32 = 5800;

/// Width of the exit.
pub const EXIT_WIDTH: i32 = 500;

/// Height of the exit.
pub const EXIT_HEIGHT: i32 = 700;

/// Number of frames of the exit's animation.
pub const EXIT_FRAMES: u8 = 9;

/// Milliseconds that the exit shows one frame.
pub const EXIT_FRAME_TIME: u32 = 50;

/// Whether the box at `pos` of size `w` by `h` reaches into the hitbox of a
/// mouse that stands at `mouse`.
pub open spec fn spec_touches_mouse(pos: Vector2, w: int, h: int, mouse: Vector2) -> bool {
    spec_box_collisions(
        pos.x as int,
        pos.y as int,
        w,
        h,
        mouse.x + HITBOX_INSET,
        mouse.y + HITBOX_INSET,
        HITBOX_SIZE as int,
        HITBOX_SIZE as int,
    )
}

/// What the rules read of the mouse.
pub struct MouseView {
    pub pos: Vector2,
    pub direction: Direction,
    pub frame: u8,
    /// When the frame last changed, in milliseconds on the mouse's clock.
    pub last_time_point: u128,
}

impl MouseView {
    /// Whether the mouse stands inside the arena.
    pub open spec fn in_arena(self) -> bool {
        0 <= self.pos.x <= MOUSE_LIMIT && 0 <= self.pos.y <= MOUSE_LIMIT
    }

    /// The mouse after one frame of keyboard input. The first key that is
    /// down, in the order A, D, W, S, decides; a mouse that stands at the
    /// wall it is sent to neither moves nor turns.
    pub open spec fn moved(self, input: Input) -> MouseView {
        if input.a_down {
            if self.pos.x > 0 {
                MouseView {
                    pos: Vector2 {
                        x: spec_step_down(self.pos.x as int, MOUSE_SPEED as int, 0) as i32,
                        y: self.pos.y,
                    },
                    direction: Direction::LEFT,
                    ..self
                }
            } else {
                self
            }
        } else if input.d_down {
            if self.pos.x < MOUSE_LIMIT {
                MouseView {
                    pos: Vector2 {
                        x: spec_step_up(self.pos.x as int, MOUSE_SPEED as int, MOUSE_LIMIT as int) as i32,
                        y: self.pos.y,
                    },
                    direction: Direction::RIGHT,
                    ..self
                }
            } else {
                self
            }
        } else if input.w_down {
            if self.pos.y < MOUSE_LIMIT {
                MouseView {
                    pos: Vector2 {
                        x: self.pos.x,
                        y: spec_step_up(self.pos.y as int, MOUSE_SPEED as int, MOUSE_LIMIT as int) as i32,
                    },
                    direction: Direction::UP,
                    ..self
                }
            } else {
                self
            }
        } else if input.s_down {
            if self.pos.y > 0 {
                MouseView {
                    pos: Vector2 {
                        x: self.pos.x,
                        y: spec_step_down(self.pos.y as int, MOUSE_SPEED as int, 0) as i32,
                    },
                    direction: Direction::DOWN,
                    ..self
                }
            } else {
                self
            }
        } else {
            self
        }
    }

    /// The mouse after it has been drawn at the time `now`: on the next of
    /// its eight frames, which it shows since `now`, if more than
    /// `MOUSE_FRAME_TIME` has passed since the frame last changed.
    pub open spec fn animated(self, now: u128) -> MouseView {
        if spec_time_between(now, self.last_time_point) > MOUSE_FRAME_TIME {
            MouseView { frame: ((self.frame + 1) % (MOUSE_FRAMES as int)) as u8, last_time_point: now, ..self }
        } else {
            self
        }
    }

    /// Whether this is `before` after it has been drawn once, at whatever
    /// time.
    pub open spec fn animated_from(self, before: MouseView) -> bool {
        exists|now: u128| self == #[trigger] before.animated(now)
    }

    /// The sprite that shows the mouse: the column of the sheet follows the
    /// direction, the row follows the frame.
    pub open spec fn sprite(self) -> Sprite {
        Sprite {
            frame_x: (self.direction.spec_ordinal() * MOUSE_SIZE) as i32,
            frame_y: (self.frame * MOUSE_SIZE) as i32,
            frame_width: MOUSE_SIZE,
            frame_height: MOUSE_SIZE,
            x: spec_round(self.pos.x as int) as i32,
            y: spec_round(self.pos.y as int) as i32,
            width: MOUSE_SIZE,
            height: MOUSE_SIZE,
            flipped: false,
            tint: Tint::White,
        }
    }
}

/// The player's avatar.
pub struct Mouse {
    node: AnimatedNode,
    direction: Direction,
    speed: i32,
}

impl View for Mouse {
    type V = MouseView;

    closed spec fn view(&self) -> MouseView {
        MouseView {
            pos: self.node.node.pos,
            direction: self.direction,
            frame: self.node.animation_step,
            last_time_point: self.node.last_time_point,
        }
    }
}

impl Mouse {
    /// How large the mouse is.
    pub closed spec fn size(&self) -> Vector2 {
        self.node.node.size
    }

    /// Whether the mouse has the speed and animation of its kind, and shows
    /// one of its frames.
    pub closed spec fn shaped(&self) -> bool {
        &&& self.node.node.available
        &&& self.node.animation_steps_count == MOUSE_FRAMES
        &&& self.node.animation_step < MOUSE_FRAMES
        &&& self.node.animation_speed == MOUSE_FRAME_TIME
        &&& self.speed == MOUSE_SPEED
    }

    /// Whether the mouse has the size, speed and animation of its kind.
    pub open spec fn wf(&self) -> bool {
        self.size() == (Vector2 { x: MOUSE_SIZE, y: MOUSE_SIZE }) && self.shaped()
    }

    /// A mouse at `(x, y)` that faces `direction`.
    pub fn new(x: i32, y: i32, direction: Direction) -> (mouse: Self)
        ensures
            mouse.wf(),
            mouse@ == (MouseView { pos: Vector2 { x, y }, direction, frame: 0, last_time_point: 0 }),
    {
        Self {
            node: AnimatedNode::create_an(x, y, MOUSE_SIZE, MOUSE_SIZE, MOUSE_FRAMES, MOUSE_FRAME_TIME),
            direction: direction,
            speed: MOUSE_SPEED,
        }
    }

    /// Moves the mouse by one frame of keyboard input.
    pub fn cycle(&mut self, handle: &Input)
        requires
            old(self).wf(),
        ensures
            final(self).wf(),
            final(self)@ == old(self)@.moved(*handle),
            old(self)@.in_arena() ==> final(self)@.in_arena(),
    {
        if handle.a_down {
            if self.node.node.pos.x > 0 {
                self.direction = Direction::LEFT;
                self.node.node.pos.x = step_down(self.node.node.pos.x, self.speed, 0);
            }
        } else if handle.d_down {
            if self.node.node.pos.x < MOUSE_LIMIT {
                self.direction = Direction::RIGHT;
                self.node.node.pos.x = step_up(self.node.node.pos.x, self.speed, MOUSE_LIMIT);
            }
        } else if handle.w_down {
            if self.node.node.pos.y < MOUSE_LIMIT {
                self.direction = Direction::UP;
                self.node.node.pos.y = step_up(self.node.node.pos.y, self.speed, MOUSE_LIMIT);
            }
        } else if handle.s_down {
            if self.node.node.pos.y > 0 {
                self.direction = Direction::DOWN;
                self.node.node.pos.y = step_down(self.node.node.pos.y, self.speed, 0);
            }
        }
    }

    /// Moves the animation on if, at the time `now`, its time has come, and
    /// gives the sprite to draw.
    pub fn draw_at(&mut self, now: u128) -> (sprite: Option<Sprite>)
        requires
            old(self).wf(),
        ensures
            final(self).wf(),
            final(self)@ == old(self)@.animated(now),
            sprite == Some(final(self)@.sprite()),
    {
        self.node.advance(now);
        self.node.node.draw(
            self.direction.ordinal() * self.node.node.size.x,
            (self.node.animation_step as i32) * self.node.node.size.x,
        )
    }

    /// Reads the clock, moves the animation on if its time has come, and
    /// gives the sprite to draw. Whatever the clock says, the mouse is then
    /// as `animated` gives it for that time.
    pub fn draw(&mut self) -> (sprite: Option<Sprite>)
        requires
            old(self).wf(),
        ensures
            final(self).wf(),
            final(self)@.animated_from(old(self)@),
            sprite == Some(final(self)@.sprite()),
    {
        self.node.cycle_animation();
        proof {
            let now = choose|now: u128| self.node == #[trigger] old(self).node.spec_advanced(now);
            assert(self@ == old(self)@.animated(now));
        }
        self.node.node.draw(
            self.direction.ordinal() * self.node.node.size.x,
            (self.node.animation_step as i32) * self.node.node.size.x,
        )
    }

    /// Where the mouse stands.
    pub fn get_pos(&self) -> (pos: &Vector2)
        ensures
            *pos == self@.pos,
    {
        &self.node.node.pos
    }

    /// How large the mouse is.
    pub fn get_size(&self) -> (size: &Vector2)
        ensures
            *size == self.size(),
    {
        &self.node.node.size
    }

    /// Which way the mouse faces.
    pub fn get_direction(&self) -> (direction: Direction)
        ensures
            direction == self@.direction,
    {
        self.direction
    }

    /// Puts the mouse at `(x, y)` without turning it.
    pub fn place(&mut self, x: i32, y: i32)
        requires
            old(self).wf(),
        ensures
            final(self).wf(),
            final(self)@ == (MouseView { pos: Vector2 { x, y }, ..old(self)@ }),
    {
        self.node.node.pos.x = x;
        self.node.node.pos.y = y;
    }
}

/// What the rules read of a cheese.
pub struct CheeseView {
    pub pos: Vector2,
    pub available: bool,
    pub frame: u8,
    /// When the frame last changed, in milliseconds on the cheese's clock.
    pub last_time_point: u128,
}

impl CheeseView {
    /// Whether the cheese reaches into the hitbox of a mouse at `mouse`.
    pub open spec fn touches(self, mouse: Vector2) -> bool {
        spec_touches_mouse(self.pos, CHEESE_SIZE as int, CHEESE_SIZE as int, mouse)
    }

    /// Whether a mouse at `mouse` picks this cheese up: the cheese is still
    /// there and reaches into the mouse's hitbox.
    pub open spec fn picked_by(self, mouse: Vector2) -> bool {
        self.available && self.touches(mouse)
    }

    /// The cheese once it has been picked up.
    pub open spec fn taken(self) -> CheeseView {
        CheeseView { available: false, ..self }
    }

    /// The cheese after it has been drawn at the time `now`: on the next of
    /// its five frames, which it shows since `now`, if more than
    /// `CHEESE_FRAME_TIME` has passed since the frame last changed.
    pub open spec fn animated(self, now: u128) -> CheeseView {
        if spec_time_between(now, self.last_time_point) > CHEESE_FRAME_TIME {
            CheeseView { frame: ((self.frame + 1) % (CHEESE_FRAMES as int)) as u8, last_time_point: now, ..self }
        } else {
            self
        }
    }

    /// Whether this is `before` after it has been drawn once, at whatever
    /// time.
    pub open spec fn animated_from(self, before: CheeseView) -> bool {
        exists|now: u128| self == #[trigger] before.animated(now)
    }

    /// The sprite that shows the cheese: the column of the sheet follows the
    /// frame.
    pub open spec fn sprite(self) -> Sprite {
        Sprite {
            frame_x: (self.frame * CHEESE_SIZE) as i32,
            frame_y: 0,
            frame_width: CHEESE_SIZE,
            frame_height: CHEESE_SIZE,
            x: spec_round(self.pos.x as int) as i32,
            y: spec_round(self.pos.y as int) as i32,
            width: CHEESE_SIZE,
            height: CHEESE_SIZE,
            flipped: false,
            tint: Tint::White,
        }
    }
}

/// A piece of cheese, to be picked up once.
pub struct Cheese {
    node: AnimatedNode,
}

impl View for Cheese {
    type V = CheeseView;

    closed spec fn view(&self) -> CheeseView {
        CheeseView {
            pos: self.node.node.pos,
            available: self.node.node.available,
            frame: self.node.animation_step,
            last_time_point: self.node.last_time_point,
        }
    }
}

impl Cheese {
    /// How large the cheese is.
    pub closed spec fn size(&self) -> Vector2 {
        self.node.node.size
    }

    /// Whether the cheese has the animation of its kind and shows one of its
    /// frames.
    pub closed spec fn shaped(&self) -> bool {
        &&& self.node.animation_steps_count == CHEESE_FRAMES
        &&& self.node.animation_step < CHEESE_FRAMES
        &&& self.node.animation_speed == CHEESE_FRAME_TIME
    }

    /// Whether the cheese has the size and animation of its kind.
    pub open spec fn wf(&self) -> bool {
        self.size() == (Vector2 { x: CHEESE_SIZE, y: CHEESE_SIZE }) && self.shaped()
    }

    /// A cheese at `(x, y)`, not yet picked up.
    pub fn new(x: i32, y: i32) -> (cheese: Self)
        ensures
            cheese.wf(),
            cheese@ == (CheeseView { pos: Vector2 { x, y }, available: true, frame: 0, last_time_point: 0 }),
    {
        Self { node: AnimatedNode::create_an(x, y, CHEESE_SIZE, CHEESE_SIZE, CHEESE_FRAMES, CHEESE_FRAME_TIME) }
    }

    /// Moves the animation on if, at the time `now`, its time has come, and
    /// gives the sprite to draw: none once the cheese is picked up.
    pub fn draw_at(&mut self, now: u128) -> (sprite: Option<Sprite>)
        requires
            old(self).wf(),
        ensures
            final(self).wf(),
            final(self)@ == old(self)@.animated(now),
            sprite == if final(self)@.available {
                Some(final(self)@.sprite())
            } else {
                None
            },
    {
        self.node.advance(now);
        self.node.node.draw((self.node.animation_step as i32) * self.node.node.size.x, 0)
    }

    /// Reads the clock, moves the animation on if its time has come, and
    /// gives the sprite to draw: none once the cheese is picked up. Whatever
    /// the clock says, the cheese is then as `animated` gives it for that
    /// time.
    pub fn draw(&mut self) -> (sprite: Option<Sprite>)
        requires
            old(self).wf(),
        ensures
            final(self).wf(),
            final(self)@.animated_from(old(self)@),
            sprite == if final(self)@.available {
                Some(final(self)@.sprite())
            } else {
                None
            },
    {
        self.node.cycle_animation();
        proof {
            let now = choose|now: u128| self.node == #[trigger] old(self).node.spec_advanced(now);
            assert(self@ == old(self)@.animated(now));
        }
        self.node.node.draw((self.node.animation_step as i32) * self.node.node.size.x, 0)
    }

    /// Whether the cheese is still to be picked up.
    pub fn is_available(&self) -> (available: &bool)
        ensures
            *available == self@.available,
    {
        &self.node.node.available
    }

    /// Where the cheese lies.
    pub fn get_pos(&self) -> (pos: &Vector2)
        ensures
            *pos == self@.pos,
    {
        &self.node.node.pos
    }

    /// How large the cheese is.
    pub fn get_size(&self) -> (size: &Vector2)
        ensures
            *size == self.size(),
    {
        &self.node.node.size
    }

    /// Whether the cheese reaches into the hitbox of a mouse at `mouse`.
    pub fn touches(&self, mouse: &Vector2) -> (hit: bool)
        requires
            self.wf(),
        ensures
            hit == self@.touches(*mouse),
    {
        self.node.node.collision(
            mouse.x as i64 + HITBOX_INSET as i64,
            mouse.y as i64 + HITBOX_INSET as i64,
            HITBOX_SIZE as i64,
            HITBOX_SIZE as i64,
        )
    }

    /// Marks the cheese as picked up.
    pub fn take(&mut self)
        requires
            old(self).wf(),
        ensures
            final(self).wf(),
            final(self)@ == old(self)@.taken(),
    {
        self.node.node.available = false;
    }
}

/// What the rules read of a spider.
pub struct SpiderView {
    pub pos: Vector2,
    pub direction: Direction,
    pub available: bool,
}

impl SpiderView {
    /// Whether the spider stands inside the arena.
    pub open spec fn in_arena(self) -> bool {
        0 <= self.pos.x <= SPIDER_LIMIT && 0 <= self.pos.y <= SPIDER_LIMIT
    }

    /// The spider one step to the right, turned that way.
    pub open spec fn stepped_right(self) -> SpiderView {
        SpiderView {
            pos: Vector2 {
                x: spec_step_up(self.pos.x as int, SPIDER_SPEED as int, SPIDER_LIMIT as int) as i32,
                y: self.pos.y,
            },
            direction: Direction::RIGHT,
            ..self
        }
    }

    /// The spider one step to the left, turned that way.
    pub open spec fn stepped_left(self) -> SpiderView {
        SpiderView {
            pos: Vector2 { x: spec_step_down(self.pos.x as int, SPIDER_SPEED as int, 0) as i32, y: self.pos.y },
            direction: Direction::LEFT,
            ..self
        }
    }

    /// The spider one step up, turned that way.
    pub open spec fn stepped_up(self) -> SpiderView {
        SpiderView {
            pos: Vector2 {
                x: self.pos.x,
                y: spec_step_up(self.pos.y as int, SPIDER_SPEED as int, SPIDER_LIMIT as int) as i32,
            },
            direction: Direction::UP,
            ..self
        }
    }

    /// The spider one step down, turned that way.
    pub open spec fn stepped_down(self) -> SpiderView {
        SpiderView {
            pos: Vector2 { x: self.pos.x, y: spec_step_down(self.pos.y as int, SPIDER_SPEED as int, 0) as i32 },
            direction: Direction::DOWN,
            ..self
        }
    }

    /// The spider after one step towards `target`. It looks at the rounded
    /// offset to the target and walks along the axis on which the offset is
    /// larger, along x when they tie. A spider that stands at the wall it
    /// would walk to neither moves nor turns, and a spider that is not there
    /// does nothing.
    pub open spec fn pursue(self, target: Vector2) -> SpiderView {
        let towards_x = spec_round(target.x - self.pos.x);
        let towards_y = spec_round(target.y - self.pos.y);
        if !self.available {
            self
        } else if spec_abs(towards_x) >= spec_abs(towards_y) {
            if towards_x > 0 {
                if self.pos.x < SPIDER_LIMIT { self.stepped_right() } else { self }
            } else {
                if self.pos.x > 0 { self.stepped_left() } else { self }
            }
        } else {
            if towards_y > 0 {
                if self.pos.y < SPIDER_LIMIT { self.stepped_up() } else { self }
            } else {
                if self.pos.y > 0 { self.stepped_down() } else { self }
            }
        }
    }

    /// The spider one step back against the way it faces, without turning.
    /// The step stops at the wall.
    pub open spec fn pushed_back(self) -> SpiderView {
        match self.direction {
            Direction::UP => SpiderView { pos: self.stepped_down().pos, ..self },
            Direction::DOWN => SpiderView { pos: self.stepped_up().pos, ..self },
            Direction::LEFT => SpiderView { pos: self.stepped_right().pos, ..self },
            Direction::RIGHT => SpiderView { pos: self.stepped_left().pos, ..self },
        }
    }

    /// Whether the spider gives way to a box at `other` of size `size`: the
    /// two overlap, and the box does not stand at the very place of the
    /// spider.
    pub open spec fn blocked_by(self, other: Vector2, size: Vector2) -> bool {
        &&& other != self.pos
        &&& spec_box_collisions(
            self.pos.x as int,
            self.pos.y as int,
            SPIDER_SIZE as int,
            SPIDER_SIZE as int,
            other.x as int,
            other.y as int,
            size.x as int,
            size.y as int,
        )
    }

    /// The spider after it has looked at a box at `other` of size `size`:
    /// pushed back where the box blocks it, unchanged where not.
    pub open spec fn avoided(self, other: Vector2, size: Vector2) -> SpiderView {
        if self.blocked_by(other, size) {
            self.pushed_back()
        } else {
            self
        }
    }

    /// Whether the spider reaches into the hitbox of a mouse at `mouse`.
    pub open spec fn touches(self, mouse: Vector2) -> bool {
        spec_touches_mouse(self.pos, SPIDER_SIZE as int, SPIDER_SIZE as int, mouse)
    }

    /// The sprite that shows the spider: the column of the sheet follows the
    /// direction.
    pub open spec fn sprite(self) -> Sprite {
        Sprite {
            frame_x: (self.direction.spec_ordinal() * SPIDER_SIZE) as i32,
            frame_y: 0,
            frame_width: SPIDER_SIZE,
            frame_height: SPIDER_SIZE,
            x: spec_round(self.pos.x as int) as i32,
            y: spec_round(self.pos.y as int) as i32,
            width: SPIDER_SIZE,
            height: SPIDER_SIZE,
            flipped: false,
            tint: Tint::White,
        }
    }
}

/// An enemy that walks towards the mouse.
pub struct Spider {
    node: VisibleNode,
    direction: Direction,
    speed: i32,
}

impl View for Spider {
    type V = SpiderView;

    closed spec fn view(&self) -> SpiderView {
        SpiderView { pos: self.node.pos, direction: self.direction, available: self.node.available }
    }
}

impl Spider {
    /// How large the spider is.
    pub closed spec fn size(&self) -> Vector2 {
        self.node.size
    }

    /// Whether the spider has the speed of its kind.
    pub closed spec fn shaped(&self) -> bool {
        self.speed == SPIDER_SPEED
    }

    /// Whether the spider has the size and speed of its kind.
    pub open spec fn wf(&self) -> bool {
        self.size() == (Vector2 { x: SPIDER_SIZE, y: SPIDER_SIZE }) && self.shaped()
    }

    /// A spider at `(x, y)` that faces `direction`.
    pub fn new(x: i32, y: i32, direction: Direction) -> (spider: Self)
        ensures
            spider.wf(),
            spider@ == (SpiderView { pos: Vector2 { x, y }, direction, available: true }),
    {
        Spider { node: VisibleNode::create_vn(x, y, SPIDER_SIZE, SPIDER_SIZE), direction: direction, speed: SPIDER_SPEED }
    }

    /// Gives the sprite to draw: none for a spider that is not there.
    pub fn draw(&mut self) -> (sprite: Option<Sprite>)
        requires
            old(self).wf(),
        ensures
            final(self).wf(),
            final(self)@ == old(self)@,
            sprite == if old(self)@.available {
                Some(old(self)@.sprite())
            } else {
                None
            },
    {
        self.node.draw(self.direction.ordinal() * self.node.size.x, 0)
    }

    /// Walks one step towards `target`.
    pub fn cycle(&mut self, target: &Vector2)
        requires
            old(self).wf(),
        ensures
            final(self).wf(),
            final(self)@ == old(self)@.pursue(*target),
            old(self)@.in_arena() ==> final(self)@.in_arena(),
    {
        if !self.node.available {
            return ;
        }
        let towards_x: i64 = round(target.x as i64 - self.node.pos.x as i64);
        let towards_y: i64 = round(target.y as i64 - self.node.pos.y as i64);
        if abs(towards_x) >= abs(towards_y) {
            if towards_x > 0 {
                if self.node.pos.x < SPIDER_LIMIT {
                    self.direction = Direction::RIGHT;
                    self.node.pos.x = step_up(self.node.pos.x, self.speed, SPIDER_LIMIT);
                }
            } else {
                if self.node.pos.x > 0 {
                    self.direction = Direction::LEFT;
                    self.node.pos.x = step_down(self.node.pos.x, self.speed, 0);
                }
            }
        } else {
            if towards_y > 0 {
                if self.node.pos.y < SPIDER_LIMIT {
                    self.direction = Direction::UP;
                    self.node.pos.y = step_up(self.node.pos.y, self.speed, SPIDER_LIMIT);
                }
            } else {
                if self.node.pos.y > 0 {
                    self.direction = Direction::DOWN;
                    self.node.pos.y = step_down(self.node.pos.y, self.speed, 0);
                }
            }
        }
    }

    /// Whether the box at `other` of size `size` blocks the spider.
    pub fn blocked_by(&self, other: &Vector2, size: &Vector2) -> (blocked: bool)
        requires
            self.wf(),
        ensures
            blocked == self@.blocked_by(*other, *size),
    {
        (other.x != self.node.pos.x || other.y != self.node.pos.y) && self.node.collision(
            other.x as i64,
            other.y as i64,
            size.x as i64,
            size.y as i64,
        )
    }

    /// Steps back by one step against the way the spider faces, without
    /// turning it.
    pub fn push_back(&mut self)
        requires
            old(self).wf(),
        ensures
            final(self).wf(),
            final(self)@ == old(self)@.pushed_back(),
            old(self)@.in_arena() ==> final(self)@.in_arena(),
    {
        if self.direction == Direction::UP {
            self.node.pos.y = step_down(self.node.pos.y, self.speed, 0);
        } else if self.direction == Direction::DOWN {
            self.node.pos.y = step_up(self.node.pos.y, self.speed, SPIDER_LIMIT);
        } else if self.direction == Direction::LEFT {
            self.node.pos.x = step_up(self.node.pos.x, self.speed, SPIDER_LIMIT);
        } else {
            self.node.pos.x = step_down(self.node.pos.x, self.speed, 0);
        }
    }

    /// Steps back from the box at `other` of size `size` if that box blocks
    /// the spider.
    pub fn avoid(&mut self, other: &Vector2, size: &Vector2)
        requires
            old(self).wf(),
        ensures
            final(self).wf(),
            final(self)@ == old(self)@.avoided(*other, *size),
            old(self)@.in_arena() ==> final(self)@.in_arena(),
    {
        if self.blocked_by(other, size) {
            self.push_back();
        }
    }

    /// Whether the spider reaches into the hitbox of a mouse at `mouse`.
    pub fn touches(&self, mouse: &Vector2) -> (hit: bool)
        requires
            self.wf(),
        ensures
            hit == self@.touches(*mouse),
    {
        self.node.collision(
            mouse.x as i64 + HITBOX_INSET as i64,
            mouse.y as i64 + HITBOX_INSET as i64,
            HITBOX_SIZE as i64,
            HITBOX_SIZE as i64,
        )
    }

    /// Where the spider stands.
    pub fn get_pos(&self) -> (pos: &Vector2)
        ensures
            *pos == self@.pos,
    {
        &self.node.pos
    }

    /// How large the spider is.
    pub fn get_size(&self) -> (size: &Vector2)
        ensures
            *size == self.size(),
    {
        &self.node.size
    }

    /// Which way the spider faces.
    pub fn get_direction(&self) -> (direction: Direction)
        ensures
            direction == self@.direction,
    {
        self.direction
    }
}

/// What the rules read of the exit.
pub struct ExitView {
    pub pos: Vector2,
    pub direction: Direction,
    pub available: bool,
    pub frame: u8,
    /// When the frame last changed, in milliseconds on the exit's clock.
    pub last_time_point: u128,
}

impl ExitView {
    /// Whether the exit reaches into the hitbox of a mouse at `mouse`.
    pub open spec fn touches(self, mouse: Vector2) -> bool {
        spec_touches_mouse(self.pos, EXIT_WIDTH as int, EXIT_HEIGHT as int, mouse)
    }

    /// The exit once it is open.
    pub open spec fn activated(self) -> ExitView {
        ExitView { available: true, ..self }
    }

    /// The exit after it has been drawn at the time `now`: on the next of
    /// its nine frames, which it shows since `now`, if more than
    /// `EXIT_FRAME_TIME` has passed since the frame last changed.
    pub open spec fn animated(self, now: u128) -> ExitView {
        if spec_time_between(now, self.last_time_point) > EXIT_FRAME_TIME {
            ExitView { frame: ((self.frame + 1) % (EXIT_FRAMES as int)) as u8, last_time_point: now, ..self }
        } else {
            self
        }
    }

    /// Whether this is `before` after it has been drawn once, at whatever
    /// time.
    pub open spec fn animated_from(self, before: ExitView) -> bool {
        exists|now: u128| self == #[trigger] before.animated(now)
    }

    /// The sprite that shows the exit: the column of the sheet follows the
    /// frame, and an exit that faces left takes the second row.
    pub open spec fn sprite(self) -> Sprite {
        Sprite {
            frame_x: (self.frame * EXIT_WIDTH) as i32,
            frame_y: if self.direction == Direction::RIGHT { 0 } else { spec_round(EXIT_HEIGHT as int) as i32 },
            frame_width: EXIT_WIDTH,
            frame_height: EXIT_HEIGHT,
            x: spec_round(self.pos.x as int) as i32,
            y: spec_round(self.pos.y as int) as i32,
            width: EXIT_WIDTH,
            height: EXIT_HEIGHT,
            flipped: false,
            tint: Tint::White,
        }
    }
}

/// The way out of a level. It is closed until every cheese is collected.
pub struct Exit {
    node: AnimatedNode,
    direction: Direction,
}

impl View for Exit {
    type V = ExitView;

    closed spec fn view(&self) -> ExitView {
        ExitView {
            pos: self.node.node.pos,
            direction: self.direction,
            available: self.node.node.available,
            frame: self.node.animation_step,
            last_time_point: self.node.last_time_point,
        }
    }
}

impl Exit {
    /// How large the exit is.
    pub closed spec fn size(&self) -> Vector2 {
        self.node.node.size
    }

    /// Whether the exit has the animation of its kind and shows one of its
    /// frames.
    pub closed spec fn shaped(&self) -> bool {
        &&& self.node.animation_steps_count == EXIT_FRAMES
        &&& self.node.animation_step < EXIT_FRAMES
        &&& self.node.animation_speed == EXIT_FRAME_TIME
    }

    /// Whether the exit has the size and animation of its kind.
    pub open spec fn wf(&self) -> bool {
        self.size() == (Vector2 { x: EXIT_WIDTH, y: EXIT_HEIGHT }) && self.shaped()
    }

    /// A closed exit at `(x, y)` that faces right.
    pub fn new(x: i32, y: i32) -> (exit: Self)
        ensures
            exit.wf(),
            exit@ == (ExitView {
                pos: Vector2 { x, y },
                direction: Direction::RIGHT,
                available: false,
                frame: 0,
                last_time_point: 0,
            }),
    {
        let mut this = Self {
            node: AnimatedNode::create_an(x, y, EXIT_WIDTH, EXIT_HEIGHT, EXIT_FRAMES, EXIT_FRAME_TIME),
            direction: Direction::RIGHT,
        };
        this.node.node.available = false;
        return this;
    }

    /// Moves the animation on if, at the time `now`, its time has come, and
    /// gives the sprite to draw: none while the exit is closed.
    pub fn draw_at(&mut self, now: u128) -> (sprite: Option<Sprite>)
        requires
            old(self).wf(),
        ensures
            final(self).wf(),
            final(self)@ == old(self)@.animated(now),
            sprite == if final(self)@.available {
                Some(final(self)@.sprite())
            } else {
                None
            },
    {
        self.node.advance(now);
        if self.direction == Direction::RIGHT {
            self.node.node.draw((self.node.animation_step as i32) * self.node.node.size.x, 0)
        } else {
            self.node.node.draw((self.node.animation_step as i32) * self.node.node.size.x, self.node.node.size.y)
        }
    }

    /// Reads the clock, moves the animation on if its time has come, and
    /// gives the sprite to draw: none while the exit is closed. Whatever the
    /// clock says, the exit is then as `animated` gives it for that time.
    pub fn draw(&mut self) -> (sprite: Option<Sprite>)
        requires
            old(self).wf(),
        ensures
            final(self).wf(),
            final(self)@.animated_from(old(self)@),
            sprite == if final(self)@.available {
                Some(final(self)@.sprite())
            } else {
                None
            },
    {
        self.node.cycle_animation();
        proof {
            let now = choose|now: u128| self.node == #[trigger] old(self).node.spec_advanced(now);
            assert(self@ == old(self)@.animated(now));
        }
        if self.direction == Direction::RIGHT {
            self.node.node.draw((self.node.animation_step as i32) * self.node.node.size.x, 0)
        } else {
            self.node.node.draw((self.node.animation_step as i32) * self.node.node.size.x, self.node.node.size.y)
        }
    }

    /// Whether the exit is open.
    pub fn is_available(&self) -> (available: &bool)
        ensures
            *available == self@.available,
    {
        &self.node.node.available
    }

    /// Opens the exit.
    pub fn activate(&mut self)
        requires
            old(self).wf(),
        ensures
            final(self).wf(),
            final(self)@ == old(self)@.activated(),
    {
        self.node.node.available = true;
    }

    /// Where the exit stands.
    pub fn get_pos(&self) -> (pos: &Vector2)
        ensures
            *pos == self@.pos,
    {
        &self.node.node.pos
    }

    /// How large the exit is.
    pub fn get_size(&self) -> (size: &Vector2)
        ensures
            *size == self.size(),
    {
        &self.node.node.size
    }

    /// Which way the exit faces.
    pub fn get_direction(&self) -> (direction: Direction)
        ensures
            direction == self@.direction,
    {
        self.direction
    }

    /// Whether the exit reaches into the hitbox of a mouse at `mouse`.
    pub fn touches(&self, mouse: &Vector2) -> (hit: bool)
        requires
            self.wf(),
        ensures
            hit == self@.touches(*mouse),
    {
        self.node.node.collision(
            mouse.x as i64 + HITBOX_INSET as i64,
            mouse.y as i64 + HITBOX_INSET as i64,
            HITBOX_SIZE as i64,
            HITBOX_SIZE as i64,
        )
    }

    /// Puts the exit at `(x, y)` and turns it to face `direction`.
    pub fn place(&mut self, x: i32, y: i32, direction: Direction)
        requires
            old(self).wf(),
        ensures
            final(self).wf(),
            final(self)@ == (ExitView { pos: Vector2 { x, y }, direction, ..old(self)@ }),
    {
        self.node.node.pos.x = x;
        self.node.node.pos.y = y;
        self.direction = direction;
    }
}

} // verus!
