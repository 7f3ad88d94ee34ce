//! The capability descriptor that a successful negotiation ends in.

use vstd::prelude::*;

use crate::xr::runtime::{BlendMode, NegotiationError};
use crate::xr::version::{GraphicsRequirements, Version};

verus! {

/// What was negotiated with the display runtime: the system to render to,
/// how its pixels blend with the surroundings, the versions of the graphics
/// API that the runtime supports, and the backend's version among them.
/// Nothing in it changes once it exists.
#[derive(Debug)]
pub struct XRInstance {
    system_id: u64,
    environment_blend_mode: BlendMode,
    requirements: GraphicsRequirements,
    backend_version: Version,
}

/// What an `XRInstance` stands for.
pub struct CapabilityDescriptor {
    pub system_id: u64,
    pub environment_blend_mode: BlendMode,
    pub requirements: GraphicsRequirements,
    pub backend_version: Version,
}

impl View for XRInstance {
    type V = CapabilityDescriptor;

    closed spec fn view(&self) -> CapabilityDescriptor {
        CapabilityDescriptor {
            system_id: self.system_id,
            environment_blend_mode: self.environment_blend_mode,
            requirements: self.requirements,
            backend_version: self.backend_version,
        }
    }
}

impl XRInstance {
    #[verifier::type_invariant]
    spec fn well_formed(self) -> bool {
        self.requirements.admits(self.backend_version)
    }

    /// The descriptor of a system whose runtime supports `backend_version`.
    /// A backend outside the supported range gets none, and the error names
    /// the version and the range.
    pub fn new(
        system_id: u64,
        environment_blend_mode: BlendMode,
        requirements: GraphicsRequirements,
        backend_version: Version,
    ) -> (r: Result<XRInstance, NegotiationError>)
        ensures
            r is Ok <==> requirements.admits(backend_version),
            r matches Ok(instance) ==> instance@ == (CapabilityDescriptor {
                system_id,
                environment_blend_mode,
                requirements,
                backend_version,
            }),
            r matches Err(error) ==> error == (NegotiationError::VersionUnsupported {
                backend: backend_version,
                requirements,
            }),
    {
        if requirements.supports(&backend_version) {
            Ok(XRInstance { system_id, environment_blend_mode, requirements, backend_version })
        } else {
            Err(NegotiationError::VersionUnsupported { backend: backend_version, requirements })
        }
    }

    pub fn system_id(&self) -> (id: u64)
        ensures
            id == self@.system_id,
    {
        self.system_id
    }

    pub fn environment_blend_mode(&self) -> (mode: BlendMode)
        ensures
            mode == self@.environment_blend_mode,
    {
        self.environment_blend_mode
    }

    /// The supported range. It admits the backend's version for as long as
    /// the descriptor lives.
    pub fn requirements(&self) -> (range: GraphicsRequirements)
        ensures
            range == self@.requirements,
            range.admits(self@.backend_version),
    {
        proof {
            use_type_invariant(self);
        }
        self.requirements
    }

    /// The backend's version: not older than the supported minimum, and of
    /// no higher major component than the supported maximum.
    pub fn backend_version(&self) -> (version: Version)
        ensures
            version == self@.backend_version,
            !version.precedes(self@.requirements.min_api_version_supported),
            version.major <= self@.requirements.max_api_version_supported.major,
    {
        proof {
            use_type_invariant(self);
        }
        self.backend_version
    }
}

} // verus!
