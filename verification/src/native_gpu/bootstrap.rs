//! Native GPU bootstrap policy.

use vstd::prelude::*;

use crate::native_gpu::error::GpuBootstrapError;

verus! {

/// Adapter power preference requested from the GPU backend.
#[derive(Debug, Clone, Copy, PartialEq, Eq, Structural)]
pub enum GpuPowerPreference {
    /// Let the backend choose.
    NoPreference,
    /// Prefer an integrated, power-saving adapter.
    LowPower,
    /// Prefer a discrete, high-performance adapter.
    HighPerformance,
}

/// Native GPU bootstrap configuration.
#[derive(Debug, Clone, Copy, PartialEq, Eq)]
pub struct GpuBootstrapConfig {
    /// Adapter power preference.
    pub power_preference: GpuPowerPreference,
    /// Whether to force the software fallback adapter.
    pub force_fallback_adapter: bool,
    /// Debug label given to the created device.
    pub device_label: &'static str,
}

/// Concrete device request derived from a bootstrap configuration.
#[derive(Debug, Clone, Copy, PartialEq, Eq)]
pub struct GpuBootstrapRequest {
    /// Adapter power preference.
    pub power_preference: GpuPowerPreference,
    /// Whether to force the software fallback adapter.
    pub force_fallback_adapter: bool,
    /// Whether the device is requested without optional features.
    pub required_features_empty: bool,
    /// Debug label given to the created device.
    pub device_label: &'static str,
}

/// Backend abstraction used to test bootstrap policy without requiring hardware.
pub trait GpuBootstrapBackend {
    /// Created context type.
    type Context;

    /// Request a GPU device for `request`.
    fn request_device(&self, request: &GpuBootstrapRequest) -> Result<Self::Context, GpuBootstrapError>;
}

/// Native GPU bootstrap coordinator.
#[derive(Debug, Clone, Copy, PartialEq, Eq)]
pub struct GpuBootstrap {
    config: GpuBootstrapConfig,
}

/// The device request a configuration asks for: its adapter choice and label,
/// and no optional features.
pub open spec fn request_for(config: GpuBootstrapConfig) -> GpuBootstrapRequest {
    GpuBootstrapRequest {
        power_preference: config.power_preference,
        force_fallback_adapter: config.force_fallback_adapter,
        required_features_empty: true,
        device_label: config.device_label,
    }
}

impl GpuBootstrap {
    /// The configuration this coordinator was made with.
    pub closed spec fn configuration(&self) -> GpuBootstrapConfig {
        self.config
    }

    /// Create a native GPU bootstrap coordinator.
    pub fn new(config: GpuBootstrapConfig) -> (b: Self)
        ensures
            b.configuration() == config,
    {
        Self { config }
    }

    /// Build the concrete request derived from configuration.
    pub fn request(&self) -> (r: GpuBootstrapRequest)
        ensures
            r == request_for(self.configuration()),
    {
        GpuBootstrapRequest {
            power_preference: self.config.power_preference,
            force_fallback_adapter: self.config.force_fallback_adapter,
            required_features_empty: true,
            device_label: self.config.device_label,
        }
    }

    /// Initialize a GPU context with a backend implementation: the backend is
    /// asked for a device with this coordinator's request, and its answer is
    /// returned. Whether that answer is a context or an error is the backend's
    /// to decide.
    pub fn initialize_with<B: GpuBootstrapBackend>(&self, backend: &B) -> (r: Result<B::Context, GpuBootstrapError>)
        ensures
            call_ensures(B::request_device, (backend, &request_for(self.configuration())), r),
    {
        let request = self.request();
        backend.request_device(&request)
    }
}

} // verus!
