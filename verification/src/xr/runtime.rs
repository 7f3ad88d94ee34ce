//! What passes between this library and the display runtime: the requests
//! that a negotiation makes, and what the runtime answers.

use vstd::prelude::*;

use crate::xr::version::{GraphicsRequirements, Version};

verus! {

/// How rendered pixels combine with what the wearer sees behind them.
#[derive(Clone, Copy, Debug, PartialEq, Eq, Structural)]
pub enum BlendMode {
    Opaque,
    Additive,
    AlphaBlend,
    /// A mode that this library has no name for, by its number.
    Other(i32),
}

/// The class of display that a system is asked for.
#[derive(Clone, Copy, Debug, PartialEq, Eq, Structural)]
pub enum FormFactor {
    HeadMountedDisplay,
    HandheldDisplay,
}

/// How many views a frame has.
#[derive(Clone, Copy, Debug, PartialEq, Eq, Structural)]
pub enum ViewConfigurationType {
    PrimaryMono,
    PrimaryStereo,
}

/// The kind of platform the process runs on.
#[derive(Clone, Copy, Debug, PartialEq, Eq, Structural)]
pub enum Platform {
    Desktop,
    /// The runtime's loader must be initialised before any other call, and
    /// an instance needs the platform's own extension.
    Android,
}

/// The runtime extensions that an instance is created with.
#[derive(Clone, Copy, Debug, PartialEq, Eq, Structural)]
pub struct ExtensionSet {
    /// Interoperation with the graphics backend.
    pub khr_vulkan_enable2: bool,
    /// Integration with the Android platform.
    pub khr_android_create_instance: bool,
}

/// The names and versions that an instance is created under. They inform
/// the runtime and change nothing.
#[derive(Clone, Copy, Debug, PartialEq, Eq)]
pub struct ApplicationInfo {
    pub application_name: &'static str,
    pub application_version: u32,
    pub engine_name: &'static str,
    pub engine_version: u32,
}

/// A call into the display runtime.
#[derive(Clone, Copy, Debug, PartialEq, Eq, Structural)]
pub enum RuntimeCall {
    LoadRuntime,
    CreateInstance,
    GetSystem,
    EnumerateBlendModes,
    GetGraphicsRequirements,
}

/// What a negotiation asks of the display runtime.
#[derive(Clone, Copy, Debug, PartialEq, Eq)]
pub enum RuntimeRequest {
    /// Find the runtime's entry point, after initialising its loader where
    /// the platform needs that.
    LoadRuntime { initialize_loader: bool },
    CreateInstance { application: ApplicationInfo, extensions: ExtensionSet },
    GetSystem { form_factor: FormFactor },
    EnumerateBlendModes { system_id: u64, view_configuration: ViewConfigurationType },
    GetGraphicsRequirements { system_id: u64 },
}

/// What the display runtime answers.
#[derive(Debug)]
pub enum RuntimeReply {
    /// The entry point was found.
    Loaded,
    InstanceCreated,
    /// The system of the form factor asked for.
    System(u64),
    /// The blend modes that the system supports, in the runtime's order.
    BlendModes(Vec<BlendMode>),
    GraphicsRequirements(GraphicsRequirements),
    /// The call failed; the runtime's result code, or zero where the
    /// failure has none.
    Failed(i32),
}

/// Why a negotiation ended without a capability descriptor. No failure is
/// retried: after any of them the negotiation starts over.
#[derive(Clone, Copy, Debug, PartialEq, Eq, Structural)]
pub enum NegotiationError {
    /// No loader of a compatible runtime was found.
    LoaderNotFound,
    /// The runtime has no head-mounted display.
    NoHeadMountedDisplay { code: i32 },
    /// The runtime refused another call.
    RuntimeCallFailed { call: RuntimeCall, code: i32 },
    /// The runtime enumerated no blend mode at all.
    NoBlendMode,
    /// The rendering backend's version is outside of what the runtime
    /// supports.
    VersionUnsupported { backend: Version, requirements: GraphicsRequirements },
    /// The reply does not answer the call that was made.
    UnexpectedReply { awaited: RuntimeCall },
}

/// The first of the enumerated modes, where there is one.
pub open spec fn first_blend_mode(modes: Seq<BlendMode>) -> Option<BlendMode> {
    if modes.len() > 0 {
        Some(modes[0])
    } else {
        None
    }
}

/// Picks the blend mode to render with: the one that the runtime lists
/// first, whatever the others are.
pub fn select_blend_mode(modes: &[BlendMode]) -> (mode: Option<BlendMode>)
    ensures
        mode == first_blend_mode(modes@),
{
    if modes.len() > 0 {
        Some(modes[0])
    } else {
        None
    }
}

/// The extensions that an instance needs on `platform`: the one for the
/// graphics backend always, the platform's own on Android only.
pub open spec fn spec_required_extensions(platform: Platform) -> ExtensionSet {
    ExtensionSet {
        khr_vulkan_enable2: true,
        khr_android_create_instance: platform == Platform::Android,
    }
}

#[verifier::when_used_as_spec(spec_required_extensions)]
pub fn required_extensions(platform: Platform) -> (extensions: ExtensionSet)
    ensures
        extensions == spec_required_extensions(platform),
{
    ExtensionSet {
        khr_vulkan_enable2: true,
        khr_android_create_instance: match platform {
            Platform::Android => true,
            Platform::Desktop => false,
        },
    }
}

} // verus!
