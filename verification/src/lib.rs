//! Control logic of a single-track audio player, kept apart from the audio
//! device, the tag readers and the message bus that drive it.
//!
//! The [`player`] decides; it never acts. Every request gives back either
//! its answer or one command for the audio backend, and the outcome of that
//! command gives back the next, until the request is answered. The
//! [`engine`] below it knows whether a stream is open and which primitive
//! makes sense in which playback state. [`laws`] states what holds of the
//! player whatever the backend answers.
//!
//! Levels are counted in ten-thousandths of full scale, times in
//! milliseconds, and the clock in ticks.

pub mod decimal;
pub mod engine;
pub mod laws;
pub mod metadata;
pub mod music;
pub mod playback;
pub mod player;
pub mod server;
pub mod text;
pub mod utils;
