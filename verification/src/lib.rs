//! A side-scrolling arcade game on a character grid, as a verified state machine.
//!
//! A sprite falls under gravity and flaps upward to pass through the gap of
//! the wall ahead of it. The library decides everything about the game: the
//! physics step, where walls stand and when one is hit, the score, and the
//! three modes of play. It draws nothing itself: each tick takes the key and
//! the time that the display reports and returns the cells and texts to draw.

pub mod config;
pub mod display;
pub mod obstacle;
pub mod player;
pub mod state;
pub mod text;
