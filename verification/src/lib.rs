//! Counter-strafe training: classification of shots from movement-key
//! timing, the configuration of the movement keys, the decisions that turn
//! raw input events into overlay commands, and the overlay's text sizes.
//!
//! Times are whole milliseconds on one clock (`i64`); durations between two
//! times are `i128`.
pub mod text;
pub mod classifier;
pub mod config;
pub mod input;
pub mod text_size;
pub mod laws;
