//! Core of a terminal idle game: a deferred flag queue, and the timer-driven
//! combat state machine that runs on it, over exact fixed-point quantities.

pub mod feature;
pub mod game;
pub mod message;
pub mod state;
pub mod util;
