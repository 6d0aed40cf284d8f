//! A verified core for a terminal word-guessing game.
//!
//! The library owns the game's logic: building the initial mask that hides
//! the secret word, interpreting single-letter and full-word guesses,
//! tracking the win/loss outcome, and gating user intents by screen.
//! Rendering and key-event plumbing live outside the library.

pub mod game;
pub mod laws;
pub mod letters;
pub mod mask;
pub mod nav;
pub mod rng;
pub mod session;
mod words;
