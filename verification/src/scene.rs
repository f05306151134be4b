//! What a frame puts on the screen, as a list of things to draw in order.

use crate::display::Bar;
use crate::entity::CheeseView;
use crate::entity::ExitView;
use crate::entity::SpiderView;
use crate::node::Sprite;
use crate::node::Tint;
use vstd::prelude::*;

verus! {

/// The images that the game draws with.
#[derive(Clone, Copy, Debug, PartialEq, Eq, Structural)]
pub enum Texture {
    Mouse,
    Cheese,
    Spider,
    Exit,
    Title,
    Start,
    Options,
    FinalScore,
    Ceasy,
    Retry,
    Back,
    VolumeText,
}

/// One thing to draw.
#[derive(Clone, Copy, Debug, PartialEq, Eq, Structural)]
pub enum DrawCommand {
    /// A part of a texture, put somewhere in the world.
    Image { texture: Texture, sprite: Sprite },
    /// A filled rectangle in the colour of the digits.
    Rectangle { bar: Bar },
}

/// The sprite of a heading that fills the width of the screen: the whole
/// texture of the given height, upside down, with its lower edge at `y`.
pub open spec fn spec_banner(y: i32, height: i32) -> Sprite {
    Sprite {
        frame_x: 0,
        frame_y: 0,
        frame_width: 6400,
        frame_height: height,
        x: 0,
        y,
        width: 6400,
        height,
        flipped: true,
        tint: Tint::White,
    }
}

/// The image of the exit: none while it is closed.
pub open spec fn spec_exit_images(exit: ExitView) -> Seq<DrawCommand> {
    if exit.available {
        seq![DrawCommand::Image { texture: Texture::Exit, sprite: exit.sprite() }]
    } else {
        Seq::empty()
    }
}

/// The images of the first `count` of `cheeses` that are still there.
pub open spec fn spec_cheese_images(cheeses: Seq<CheeseView>, count: int) -> Seq<DrawCommand>
    decreases count,
{
    if count <= 0 {
        Seq::empty()
    } else if cheeses[count - 1].available {
        spec_cheese_images(cheeses, count - 1).push(
            DrawCommand::Image { texture: Texture::Cheese, sprite: cheeses[count - 1].sprite() },
        )
    } else {
        spec_cheese_images(cheeses, count - 1)
    }
}

/// The images of the first `count` of `spiders` that are there.
pub open spec fn spec_spider_images(spiders: Seq<SpiderView>, count: int) -> Seq<DrawCommand>
    decreases count,
{
    if count <= 0 {
        Seq::empty()
    } else if spiders[count - 1].available {
        spec_spider_images(spiders, count - 1).push(
            DrawCommand::Image { texture: Texture::Spider, sprite: spiders[count - 1].sprite() },
        )
    } else {
        spec_spider_images(spiders, count - 1)
    }
}

/// The rectangles of `bars`, in their order.
pub open spec fn spec_rectangles(bars: Seq<Bar>) -> Seq<DrawCommand> {
    Seq::new(bars.len(), |i: int| DrawCommand::Rectangle { bar: bars[i] })
}

/// The sprite of a heading.
pub fn banner(y: i32, height: i32) -> (sprite: Sprite)
    ensures
        sprite == spec_banner(y, height),
{
    Sprite {
        frame_x: 0,
        frame_y: 0,
        frame_width: 6400,
        frame_height: height,
        x: 0,
        y,
        width: 6400,
        height,
        flipped: true,
        tint: Tint::White,
    }
}

/// Adds the image of `sprite`, if there is one, to `commands`.
pub fn push_image(commands: &mut Vec<DrawCommand>, texture: Texture, sprite: Option<Sprite>)
    ensures
        final(commands)@ == match sprite {
            Some(s) => old(commands)@.push(DrawCommand::Image { texture, sprite: s }),
            None => old(commands)@,
        },
{
    match sprite {
        Some(s) => {
            commands.push(DrawCommand::Image { texture, sprite: s });
        },
        None => {},
    }
}

/// Adds the rectangles of `bars` to `commands`.
pub fn push_rectangles(commands: &mut Vec<DrawCommand>, bars: &Vec<Bar>)
    ensures
        final(commands)@ == old(commands)@ + spec_rectangles(bars@),
{
    let count = bars.len();
    let mut i: usize = 0;
    while i < count
        invariant
            i <= count,
            count == bars@.len(),
            commands@ == old(commands)@ + spec_rectangles(bars@.take(i as int)),
        decreases count - i,
    {
        commands.push(DrawCommand::Rectangle { bar: bars[i] });
        i += 1;
    }
}

} // verus!
