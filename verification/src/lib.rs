//! A two-key reflex game: wait out a countdown, then press the arrow key that
//! matches the side that lights up.
//!
//! The crate holds the game's rules and nothing else. Time is counted in whole
//! nanoseconds, so every rule is exact integer arithmetic. A front end feeds
//! the elapsed time of each frame and the keys that were pressed into an
//! [`app::App`] and paints the [`view::View`] it hands back.

pub mod app;
pub mod key;
pub mod laws;
pub mod side;
pub mod state;
pub mod time;
pub mod view;
