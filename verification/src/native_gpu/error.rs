//! Native GPU bootstrap errors.

use vstd::prelude::*;

use crate::text::concat;

verus! {

/// Native GPU bootstrap errors.
#[derive(Debug, Clone, PartialEq, Eq)]
pub enum GpuBootstrapError {
    /// No compatible adapter was available.
    AdapterUnavailable(String),
    /// Device creation failed for the selected adapter.
    DeviceUnavailable(String),
    /// GPU smoke rendering or readback failed.
    SmokeReadback(String),
}

/// `e` is a smoke readback failure whose message reads `message`.
pub open spec fn is_smoke_error(e: GpuBootstrapError, message: Seq<char>) -> bool {
    e matches GpuBootstrapError::SmokeReadback(m) && m@ == message
}

/// The text describing `e`.
pub open spec fn bootstrap_error_text(e: GpuBootstrapError) -> Seq<char> {
    match e {
        GpuBootstrapError::AdapterUnavailable(m) => "no compatible GPU adapter available: "@ + m@,
        GpuBootstrapError::DeviceUnavailable(m) => "GPU device creation failed: "@ + m@,
        GpuBootstrapError::SmokeReadback(m) => "GPU smoke readback failed: "@ + m@,
    }
}

impl GpuBootstrapError {
    /// The text describing this error.
    pub fn message(&self) -> (s: String)
        ensures
            s@ == bootstrap_error_text(*self),
    {
        match self {
            GpuBootstrapError::AdapterUnavailable(m) => concat("no compatible GPU adapter available: ", m.as_str()),
            GpuBootstrapError::DeviceUnavailable(m) => concat("GPU device creation failed: ", m.as_str()),
            GpuBootstrapError::SmokeReadback(m) => concat("GPU smoke readback failed: ", m.as_str()),
        }
    }
}

/// A smoke readback failure with the given message.
pub fn smoke_error(message: &str) -> (e: GpuBootstrapError)
    ensures
        is_smoke_error(e, message@),
{
    GpuBootstrapError::SmokeReadback(message.to_owned())
}

} // verus!
