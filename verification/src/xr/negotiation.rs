//! The negotiation with the display runtime, step by step.
//!
//! A negotiation makes five calls in a fixed order: it finds the runtime,
//! creates an instance, asks for the head-mounted display, enumerates the
//! blend modes of the stereo view configuration, and asks which versions of
//! the graphics API the runtime supports. Any failure ends it. A
//! `Negotiation` says which call to make next and takes the runtime's
//! reply; the calls themselves are made by whoever drives it.

use vstd::prelude::*;

use crate::xr::runtime::{
    first_blend_mode,
    required_extensions,
    select_blend_mode,
    spec_required_extensions,
    ApplicationInfo,
    BlendMode,
    FormFactor,
    NegotiationError,
    Platform,
    RuntimeCall,
    RuntimeReply,
    RuntimeRequest,
    ViewConfigurationType,
};
use crate::xr::version::{GraphicsRequirements, Version};
use crate::xr::xr_instance::{CapabilityDescriptor, XRInstance};

verus! {

/// How far a negotiation has come, with what it has learned on the way.
#[derive(Clone, Copy, Debug, PartialEq, Eq, Structural)]
pub enum NegotiationStage {
    AwaitLoader,
    AwaitInstance,
    AwaitSystem,
    AwaitBlendModes { system_id: u64 },
    AwaitRequirements { system_id: u64, environment_blend_mode: BlendMode },
}

/// A negotiation in progress.
#[derive(Clone, Copy, Debug)]
pub struct Negotiation {
    pub stage: NegotiationStage,
    pub platform: Platform,
    pub application: ApplicationInfo,
    /// The version of the rendering backend that is to present.
    pub backend_version: Version,
}

/// How one step of a negotiation ends.
#[derive(Debug)]
pub enum NegotiationStep {
    /// The negotiation goes on and has a new request.
    Next(Negotiation),
    Finished(XRInstance),
    Failed(NegotiationError),
}

/// What a `NegotiationStep` stands for.
pub enum NegotiationStepView {
    Next(Negotiation),
    Finished(CapabilityDescriptor),
    Failed(NegotiationError),
}

impl View for NegotiationStep {
    type V = NegotiationStepView;

    open spec fn view(&self) -> NegotiationStepView {
        match *self {
            NegotiationStep::Next(negotiation) => NegotiationStepView::Next(negotiation),
            NegotiationStep::Finished(instance) => NegotiationStepView::Finished(instance@),
            NegotiationStep::Failed(error) => NegotiationStepView::Failed(error),
        }
    }
}

impl NegotiationStage {
    /// The call that is made at this stage.
    pub open spec fn spec_awaits(self) -> RuntimeCall {
        match self {
            NegotiationStage::AwaitLoader => RuntimeCall::LoadRuntime,
            NegotiationStage::AwaitInstance => RuntimeCall::CreateInstance,
            NegotiationStage::AwaitSystem => RuntimeCall::GetSystem,
            NegotiationStage::AwaitBlendModes { .. } => RuntimeCall::EnumerateBlendModes,
            NegotiationStage::AwaitRequirements { .. } => RuntimeCall::GetGraphicsRequirements,
        }
    }

    #[verifier::when_used_as_spec(spec_awaits)]
    pub fn awaits(self) -> (call: RuntimeCall)
        ensures
            call == self.spec_awaits(),
    {
        match self {
            NegotiationStage::AwaitLoader => RuntimeCall::LoadRuntime,
            NegotiationStage::AwaitInstance => RuntimeCall::CreateInstance,
            NegotiationStage::AwaitSystem => RuntimeCall::GetSystem,
            NegotiationStage::AwaitBlendModes { .. } => RuntimeCall::EnumerateBlendModes,
            NegotiationStage::AwaitRequirements { .. } => RuntimeCall::GetGraphicsRequirements,
        }
    }
}

/// The error that a failed call ends the negotiation with: a runtime that
/// cannot be found, a head-mounted display that is not there, or the call
/// and the runtime's code.
pub open spec fn spec_call_failure(call: RuntimeCall, code: i32) -> NegotiationError {
    match call {
        RuntimeCall::LoadRuntime => NegotiationError::LoaderNotFound,
        RuntimeCall::GetSystem => NegotiationError::NoHeadMountedDisplay { code },
        _ => NegotiationError::RuntimeCallFailed { call, code },
    }
}

#[verifier::when_used_as_spec(spec_call_failure)]
pub fn call_failure(call: RuntimeCall, code: i32) -> (error: NegotiationError)
    ensures
        error == spec_call_failure(call, code),
{
    match call {
        RuntimeCall::LoadRuntime => NegotiationError::LoaderNotFound,
        RuntimeCall::GetSystem => NegotiationError::NoHeadMountedDisplay { code },
        _ => NegotiationError::RuntimeCallFailed { call, code },
    }
}

/// How the negotiation ends once the runtime has told its supported range:
/// in a descriptor when the range admits the backend, in an error that
/// names version and range when it does not.
pub open spec fn conclude(
    system_id: u64,
    environment_blend_mode: BlendMode,
    requirements: GraphicsRequirements,
    backend_version: Version,
) -> NegotiationStepView {
    if requirements.admits(backend_version) {
        NegotiationStepView::Finished(
            CapabilityDescriptor {
                system_id,
                environment_blend_mode,
                requirements,
                backend_version,
            },
        )
    } else {
        NegotiationStepView::Failed(
            NegotiationError::VersionUnsupported { backend: backend_version, requirements },
        )
    }
}

impl Negotiation {
    /// The negotiation before its first call.
    pub open spec fn spec_start(
        platform: Platform,
        application: ApplicationInfo,
        backend_version: Version,
    ) -> Negotiation {
        Negotiation { stage: NegotiationStage::AwaitLoader, platform, application, backend_version }
    }

    #[verifier::when_used_as_spec(spec_start)]
    pub fn start(platform: Platform, application: ApplicationInfo, backend_version: Version) -> (n:
        Negotiation)
        ensures
            n == Negotiation::spec_start(platform, application, backend_version),
    {
        Negotiation { stage: NegotiationStage::AwaitLoader, platform, application, backend_version }
    }

    /// The same negotiation at another stage.
    pub open spec fn at(self, stage: NegotiationStage) -> Negotiation {
        Negotiation { stage, ..self }
    }

    /// What the negotiation asks of the runtime at its stage: always the
    /// head-mounted display, and the blend modes of the stereo view
    /// configuration.
    pub open spec fn spec_request(&self) -> RuntimeRequest {
        match self.stage {
            NegotiationStage::AwaitLoader => RuntimeRequest::LoadRuntime {
                initialize_loader: self.platform == Platform::Android,
            },
            NegotiationStage::AwaitInstance => RuntimeRequest::CreateInstance {
                application: self.application,
                extensions: spec_required_extensions(self.platform),
            },
            NegotiationStage::AwaitSystem => RuntimeRequest::GetSystem {
                form_factor: FormFactor::HeadMountedDisplay,
            },
            NegotiationStage::AwaitBlendModes { system_id } => RuntimeRequest::EnumerateBlendModes {
                system_id,
                view_configuration: ViewConfigurationType::PrimaryStereo,
            },
            NegotiationStage::AwaitRequirements {
                system_id,
                ..
            } => RuntimeRequest::GetGraphicsRequirements { system_id },
        }
    }

    /// What to ask of the runtime now.
    #[verifier::when_used_as_spec(spec_request)]
    pub fn request(&self) -> (request: RuntimeRequest)
        ensures
            request == self.spec_request(),
    {
        match self.stage {
            NegotiationStage::AwaitLoader => RuntimeRequest::LoadRuntime {
                initialize_loader: match self.platform {
                    Platform::Android => true,
                    Platform::Desktop => false,
                },
            },
            NegotiationStage::AwaitInstance => RuntimeRequest::CreateInstance {
                application: self.application,
                extensions: required_extensions(self.platform),
            },
            NegotiationStage::AwaitSystem => RuntimeRequest::GetSystem {
                form_factor: FormFactor::HeadMountedDisplay,
            },
            NegotiationStage::AwaitBlendModes { system_id } => RuntimeRequest::EnumerateBlendModes {
                system_id,
                view_configuration: ViewConfigurationType::PrimaryStereo,
            },
            NegotiationStage::AwaitRequirements {
                system_id,
                ..
            } => RuntimeRequest::GetGraphicsRequirements { system_id },
        }
    }

    /// The negotiation after the runtime's reply to its request.
    ///
    /// A failed call ends it. The reply that answers the call takes it to
    /// the next stage: the system is kept, of the blend modes the first is
    /// kept, and the supported range concludes the negotiation. Any other
    /// reply ends it as unexpected.
    pub open spec fn advance(self, reply: RuntimeReply) -> NegotiationStepView {
        match (self.stage, reply) {
            (_, RuntimeReply::Failed(code)) => NegotiationStepView::Failed(
                spec_call_failure(self.stage.spec_awaits(), code),
            ),
            (NegotiationStage::AwaitLoader, RuntimeReply::Loaded) => NegotiationStepView::Next(
                self.at(NegotiationStage::AwaitInstance),
            ),
            (
                NegotiationStage::AwaitInstance,
                RuntimeReply::InstanceCreated,
            ) => NegotiationStepView::Next(self.at(NegotiationStage::AwaitSystem)),
            (
                NegotiationStage::AwaitSystem,
                RuntimeReply::System(system_id),
            ) => NegotiationStepView::Next(
                self.at(NegotiationStage::AwaitBlendModes { system_id }),
            ),
            (
                NegotiationStage::AwaitBlendModes { system_id },
                RuntimeReply::BlendModes(modes),
            ) => match first_blend_mode(modes@) {
                Some(environment_blend_mode) => NegotiationStepView::Next(
                    self.at(
                        NegotiationStage::AwaitRequirements { system_id, environment_blend_mode },
                    ),
                ),
                None => NegotiationStepView::Failed(NegotiationError::NoBlendMode),
            },
            (
                NegotiationStage::AwaitRequirements { system_id, environment_blend_mode },
                RuntimeReply::GraphicsRequirements(requirements),
            ) => conclude(system_id, environment_blend_mode, requirements, self.backend_version),
            _ => NegotiationStepView::Failed(
                NegotiationError::UnexpectedReply { awaited: self.stage.spec_awaits() },
            ),
        }
    }

    /// The negotiation after a sequence of replies, each answering the
    /// request that the one before led to. Replies after the end of the
    /// negotiation are not looked at.
    pub open spec fn run(self, replies: Seq<RuntimeReply>) -> NegotiationStepView
        decreases replies.len(),
    {
        if replies.len() == 0 {
            NegotiationStepView::Next(self)
        } else {
            match self.advance(replies[0]) {
                NegotiationStepView::Next(negotiation) => negotiation.run(replies.drop_first()),
                ended => ended,
            }
        }
    }

    /// Takes the runtime's reply to `self.request()`.
    pub fn step(self, reply: RuntimeReply) -> (next: NegotiationStep)
        ensures
            next@ == self.advance(reply),
    {
        let unexpected = NegotiationStep::Failed(
            NegotiationError::UnexpectedReply { awaited: self.stage.awaits() },
        );
        match reply {
            RuntimeReply::Failed(code) => NegotiationStep::Failed(
                call_failure(self.stage.awaits(), code),
            ),
            RuntimeReply::Loaded => match self.stage {
                NegotiationStage::AwaitLoader => NegotiationStep::Next(
                    Negotiation { stage: NegotiationStage::AwaitInstance, ..self },
                ),
                _ => unexpected,
            },
            RuntimeReply::InstanceCreated => match self.stage {
                NegotiationStage::AwaitInstance => NegotiationStep::Next(
                    Negotiation { stage: NegotiationStage::AwaitSystem, ..self },
                ),
                _ => unexpected,
            },
            RuntimeReply::System(system_id) => match self.stage {
                NegotiationStage::AwaitSystem => NegotiationStep::Next(
                    Negotiation { stage: NegotiationStage::AwaitBlendModes { system_id }, ..self },
                ),
                _ => unexpected,
            },
            RuntimeReply::BlendModes(modes) => match self.stage {
                NegotiationStage::AwaitBlendModes { system_id } => match select_blend_mode(
                    modes.as_slice(),
                ) {
                    Some(environment_blend_mode) => NegotiationStep::Next(
                        Negotiation {
                            stage: NegotiationStage::AwaitRequirements {
                                system_id,
                                environment_blend_mode,
                            },
                            ..self
                        },
                    ),
                    None => NegotiationStep::Failed(NegotiationError::NoBlendMode),
                },
                _ => unexpected,
            },
            RuntimeReply::GraphicsRequirements(requirements) => match self.stage {
                NegotiationStage::AwaitRequirements {
                    system_id,
                    environment_blend_mode,
                } => match XRInstance::new(
                    system_id,
                    environment_blend_mode,
                    requirements,
                    self.backend_version,
                ) {
                    Ok(instance) => NegotiationStep::Finished(instance),
                    Err(error) => NegotiationStep::Failed(error),
                },
                _ => unexpected,
            },
        }
    }
}

/// The replies of a runtime that answers every call of a negotiation: it is
/// found, creates the instance, has the system, and reports these blend
/// modes and this supported range.
pub open spec fn answers_every_call(
    replies: Seq<RuntimeReply>,
    system_id: u64,
    modes: Seq<BlendMode>,
    requirements: GraphicsRequirements,
) -> bool {
    &&& replies.len() >= 5
    &&& replies[0] is Loaded
    &&& replies[1] is InstanceCreated
    &&& replies[2] == RuntimeReply::System(system_id)
    &&& replies[3] matches RuntimeReply::BlendModes(listed) && listed@ == modes
    &&& replies[4] == RuntimeReply::GraphicsRequirements(requirements)
}

/// With a runtime that answers every call, a negotiation succeeds exactly
/// when the runtime lists a blend mode and its supported range admits the
/// backend. The descriptor then holds the system, the first blend mode
/// listed, the range and the backend's version. With no blend mode listed
/// the negotiation fails for that; with a backend outside the range it
/// fails with an error that names version and range.
pub proof fn lemma_negotiation_outcome(
    negotiation: Negotiation,
    replies: Seq<RuntimeReply>,
    system_id: u64,
    modes: Seq<BlendMode>,
    requirements: GraphicsRequirements,
)
    requires
        negotiation.stage == NegotiationStage::AwaitLoader,
        answers_every_call(replies, system_id, modes, requirements),
    ensures
        negotiation.run(replies) is Finished <==> modes.len() > 0 && requirements.admits(
            negotiation.backend_version,
        ),
        negotiation.run(replies) is Finished <==> modes.len() > 0
            && !negotiation.backend_version.precedes(requirements.min_api_version_supported)
            && negotiation.backend_version.major <= requirements.max_api_version_supported.major,
        negotiation.run(replies) matches NegotiationStepView::Finished(descriptor) ==> descriptor
            == (CapabilityDescriptor {
            system_id,
            environment_blend_mode: modes[0],
            requirements,
            backend_version: negotiation.backend_version,
        }),
        negotiation.run(replies) == (if modes.len() == 0 {
            NegotiationStepView::Failed(NegotiationError::NoBlendMode)
        } else {
            conclude(system_id, modes[0], requirements, negotiation.backend_version)
        }),
{
    reveal_with_fuel(Negotiation::run, 6);
    let r1 = replies.drop_first();
    let r2 = r1.drop_first();
    let r3 = r2.drop_first();
    let r4 = r3.drop_first();
    assert(r1[0] == replies[1]);
    assert(r2[0] == replies[2]);
    assert(r3[0] == replies[3]);
    assert(r4[0] == replies[4]);
}

/// The call that is made `k` replies into a negotiation.
pub open spec fn call_in_order(k: int) -> RuntimeCall {
    if k == 0 {
        RuntimeCall::LoadRuntime
    } else if k == 1 {
        RuntimeCall::CreateInstance
    } else if k == 2 {
        RuntimeCall::GetSystem
    } else if k == 3 {
        RuntimeCall::EnumerateBlendModes
    } else {
        RuntimeCall::GetGraphicsRequirements
    }
}

/// The first `k` replies answer the first `k` calls of a negotiation, and
/// the blend modes, if they are among them, are not empty.
pub open spec fn answers_first_calls(replies: Seq<RuntimeReply>, k: int) -> bool {
    &&& k <= replies.len()
    &&& k > 0 ==> replies[0] is Loaded
    &&& k > 1 ==> replies[1] is InstanceCreated
    &&& k > 2 ==> replies[2] is System
    &&& k > 3 ==> (replies[3] matches RuntimeReply::BlendModes(listed) && listed@.len() > 0)
}

/// A negotiation fails at the first call that fails, with the error of that
/// call, and makes no call after it.
pub proof fn lemma_negotiation_fails_at_first_failure(
    negotiation: Negotiation,
    replies: Seq<RuntimeReply>,
    k: int,
    code: i32,
)
    requires
        negotiation.stage == NegotiationStage::AwaitLoader,
        0 <= k < 5,
        k < replies.len(),
        answers_first_calls(replies, k),
        replies[k] == RuntimeReply::Failed(code),
    ensures
        negotiation.run(replies.take(k)) matches NegotiationStepView::Next(now)
            && now.stage.spec_awaits() == call_in_order(k),
        negotiation.run(replies) == NegotiationStepView::Failed(
            spec_call_failure(call_in_order(k), code),
        ),
{
    reveal_with_fuel(Negotiation::run, 6);
    let r1 = replies.drop_first();
    let r2 = r1.drop_first();
    let r3 = r2.drop_first();
    let r4 = r3.drop_first();
    let p = replies.take(k);
    let p1 = p.drop_first();
    let p2 = p1.drop_first();
    let p3 = p2.drop_first();
    if k >= 1 {
        assert(r1[0] == replies[1]);
        assert(p[0] == replies[0]);
    }
    if k >= 2 {
        assert(r2[0] == replies[2]);
        assert(p1[0] == replies[1]);
    }
    if k >= 3 {
        assert(r3[0] == replies[3]);
        assert(p2[0] == replies[2]);
    }
    if k >= 4 {
        assert(r4[0] == replies[4]);
        assert(p3[0] == replies[3]);
        assert(p3.drop_first().len() == 0);
    }
}

/// A fresh negotiation ends with its fifth reply at the latest, whatever
/// the replies are.
pub proof fn lemma_negotiation_ends(negotiation: Negotiation, replies: Seq<RuntimeReply>)
    requires
        negotiation.stage == NegotiationStage::AwaitLoader,
        replies.len() >= 5,
    ensures
        !(negotiation.run(replies) is Next),
{
    reveal_with_fuel(Negotiation::run, 6);
    let r1 = replies.drop_first();
    let r2 = r1.drop_first();
    let r3 = r2.drop_first();
    let r4 = r3.drop_first();
    assert(r1[0] == replies[1]);
    assert(r2[0] == replies[2]);
    assert(r3[0] == replies[3]);
    assert(r4[0] == replies[4]);
}

/// A failed call ends the negotiation at whatever stage it is, and so does
/// a reply that does not answer the call made. Neither yields a descriptor.
pub proof fn lemma_failure_is_final(negotiation: Negotiation, reply: RuntimeReply)
    ensures
        reply matches RuntimeReply::Failed(code) ==> negotiation.advance(reply)
            == NegotiationStepView::Failed(
            spec_call_failure(negotiation.stage.spec_awaits(), code),
        ),
        negotiation.stage is AwaitLoader && reply is Failed ==> negotiation.advance(reply)
            == NegotiationStepView::Failed(NegotiationError::LoaderNotFound),
        negotiation.stage is AwaitSystem && reply is Failed ==> negotiation.advance(reply)
            matches NegotiationStepView::Failed(NegotiationError::NoHeadMountedDisplay { .. }),
        negotiation.advance(reply) is Finished ==> negotiation.stage is AwaitRequirements && reply
            is GraphicsRequirements,
        negotiation.advance(reply) matches NegotiationStepView::Next(next) ==> next.platform
            == negotiation.platform && next.backend_version == negotiation.backend_version
            && next.application == negotiation.application,
{
}

/// The blend mode that a negotiation settles on is the first one listed,
/// whatever follows it in the list.
pub proof fn lemma_first_blend_mode_is_selected(
    negotiation: Negotiation,
    system_id: u64,
    listed: Vec<BlendMode>,
    other: Vec<BlendMode>,
)
    requires
        negotiation.stage == (NegotiationStage::AwaitBlendModes { system_id }),
        listed@.len() > 0,
        other@.len() > 0,
        listed@[0] == other@[0],
    ensures
        negotiation.advance(RuntimeReply::BlendModes(listed)) == NegotiationStepView::Next(
            negotiation.at(
                NegotiationStage::AwaitRequirements {
                    system_id,
                    environment_blend_mode: listed@[0],
                },
            ),
        ),
        negotiation.advance(RuntimeReply::BlendModes(listed)) == negotiation.advance(
            RuntimeReply::BlendModes(other),
        ),
{
}

} // verus!
