//! Gromaq: CPU-side rendering logic of a GPU terminal emulator, with its
//! checked arithmetic, glyph atlas cache, atlas image packing and frame pacing.

pub mod cell;
pub mod error;
pub mod grid;
pub mod native_gpu;
pub mod pty;
pub mod renderer;
pub mod text;
