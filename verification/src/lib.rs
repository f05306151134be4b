//! Simulation core of a small arcade game: a mouse collects cheese on a
//! generated grid level while spiders hunt it, and leaves through an exit
//! once every cheese is taken.
//!
//! The library holds the rules and nothing else. The caller samples the
//! keyboard into an [`input::Input`] once per frame, hands it to
//! [`game::Game::update`], plays the sounds that come back, and draws what
//! [`game::Game::show`] lists.
//!
//! Every length and coordinate is an integer that counts hundredths of a
//! world unit, so a mouse that is nine units wide has the width 900. A spawn
//! rate counts hundredths as well, and a random draw is the numerator of a
//! fraction over 2^32. Nothing in the rules is rounded but where they say so.
//!
//! Whatever is animated keeps one reading of the clock, taken when it was
//! made, and counts its times in milliseconds since that reading. A function
//! that reads the clock does nothing else: it hands the time to a function
//! that takes the time as an argument and is stated exactly.
//!
//! Each kind of thing has a view, a plain value that holds what the rules
//! read of it. The rules are stated as functions on views, the contracts of
//! the executable functions say that they carry those functions out, and
//! [`laws`] proves what follows for the game as a whole.

pub mod button;
pub mod clock;
pub mod display;
pub mod entity;
pub mod game;
pub mod generation;
pub mod geometry;
pub mod input;
pub mod laws;
pub mod level;
pub mod node;
pub mod random;
pub mod scene;
