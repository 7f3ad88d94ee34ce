//! Capability negotiation with the display runtime.

pub mod negotiation;
pub mod runtime;
pub mod version;
pub mod xr_instance;
