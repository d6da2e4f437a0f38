//! Rule-and-state engine for a wolf, sheep and cabbage river-crossing puzzle
//! on a fixed 12x8 grid.
//!
//! The library owns the whole game logic: grid geometry, the mutable game
//! state with its movement and action semantics, the interaction resolver
//! that decides what a contextual "interact" command does, the timed boat
//! crossing, and the win/lose rule checker. Presentation and input layers
//! live outside and talk to the engine through plain values.

pub mod engine;
pub mod game;
pub mod interaction;
pub mod laws;
pub mod world;
