//! Pure checks behind the live GPU smoke runs: target sizing, timing
//! statistics, snapshot encoding and the pixel samples taken from readbacks.

pub mod perf;
pub mod pixels;
pub mod snapshot;
pub mod terminal_text;
pub mod welcome;
