//! Langton's ant on a toroidal grid: the automaton, the camera that looks at
//! it, and the timing of the loop that drives both.
//!
//! The library draws nothing and reads no clock. It says which squares make
//! up a picture, what an event and a time do to a world, and what a command
//! line configures; the window, the keyboard and the terminal belong to the
//! program around it.
//!
//! Each type has a view, its mathematical model, and every function states
//! what it does over the views. The laws that relate several functions are
//! proof functions next to the models they speak of.

pub mod ant;
pub mod args;
pub mod control;
pub mod grid;
pub mod options;
mod random;
pub mod render;
pub mod viewport;
pub mod world;
