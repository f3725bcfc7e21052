//! A deterministic simulation core for a two-paddle ball game.
//!
//! Two paddles deflect a ball across a bounded playfield; a player wins when
//! the ball leaves through the opposite side. This crate holds the rules of
//! that game and nothing else: it is handed the keys that are held and the
//! size of the screen, advances the round by one step, and offers positions
//! and text for whoever draws them.
//!
//! All coordinates are fixed-point numbers, so every step is exact integer
//! arithmetic and a round plays back identically on every machine.

pub mod entity;
pub mod fixed;
pub mod game;
pub mod geometry;
