//! Native GPU validation logic: bootstrap policy, checked buffer and readback
//! layouts, upload patterns, smoke-report data and the pure checks applied to
//! pixels read back from the GPU.

pub mod bootstrap;
pub mod draw_buffers;
pub mod draw_checks;
pub mod error;
pub mod quad_bytes;
pub mod readback;
pub mod reports;
pub mod smoke;
pub mod upload;

pub use bootstrap::{GpuBootstrap, GpuBootstrapBackend, GpuBootstrapConfig, GpuBootstrapRequest, GpuPowerPreference};
pub use error::GpuBootstrapError;
pub use readback::ReadbackLayout;
pub use upload::{UploadPattern, UploadPatternLayout};
