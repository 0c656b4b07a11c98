//! Core logic of a small 2D tile-based game: sprite animation playback,
//! noise-driven tile-chunk generation, and the player movement state machine.
//!
//! All coordinates and times are integers: world positions and sizes are in
//! caller-chosen sub-pixel units (`i64`), times are in milliseconds (`u64`),
//! and noise samples arrive as thousandths of the raw `[-1, 1]` value.
//! Rendering, input polling, asset loading and the noise field itself live
//! outside this crate; it receives plain values and hands back draw data.

pub mod animation;
pub mod game_object;
pub mod geometry;
pub mod player;
pub mod tiles;
