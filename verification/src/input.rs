//! The keyboard and sound state that the caller samples once per frame.

use vstd::prelude::*;

verus! {

/// One frame's snapshot of the outside world. A key is down while it is held;
/// it is released in the one frame in which it goes up.
#[derive(Clone, Copy, Debug, PartialEq, Eq, Structural)]
pub struct Input {
    pub a_down: bool,
    pub d_down: bool,
    pub w_down: bool,
    pub s_down: bool,
    pub a_released: bool,
    pub s_released: bool,
    pub x_released: bool,
    pub z_released: bool,
    /// Whether the background theme is still sounding.
    pub theme_playing: bool,
}

impl Input {
    /// A frame in which no key is touched and the theme is sounding.
    pub fn idle() -> (input: Input)
        ensures
            input == (Input {
                a_down: false,
                d_down: false,
                w_down: false,
                s_down: false,
                a_released: false,
                s_released: false,
                x_released: false,
                z_released: false,
                theme_playing: true,
            }),
    {
        Input {
            a_down: false,
            d_down: false,
            w_down: false,
            s_down: false,
            a_released: false,
            s_released: false,
            x_released: false,
            z_released: false,
            theme_playing: true,
        }
    }
}

} // verus!
