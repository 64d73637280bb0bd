//! A grid-based snake game: the simulation core, with every rule stated as a
//! contract and proved.
//!
//! The crate holds the state of a session and the rules that move it from
//! one tick to the next, and it says for every frame what is to be drawn
//! and where. The window, the clock and the keyboard are left to the host
//! program, which hands in elapsed time, key presses and the size of its
//! window, and paints what it is told.
//!
//! Nothing in the crate is a floating-point number. Time is counted in
//! nanoseconds, colours and sizes in thousandths, and places on the screen
//! in exact fractions of a pixel.

pub mod cell;
pub mod chance;
pub mod engine;
pub mod food;
pub mod game;
pub mod grid;
pub mod grid_drawable;
pub mod motion;
pub mod settings;
pub mod snake;
