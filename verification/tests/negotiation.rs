use hmd_bootstrap::xr::negotiation::{Negotiation, NegotiationStage, NegotiationStep};
use hmd_bootstrap::xr::runtime::{
    required_extensions, select_blend_mode, ApplicationInfo, BlendMode, ExtensionSet, FormFactor,
    NegotiationError, Platform, RuntimeCall, RuntimeReply, RuntimeRequest, ViewConfigurationType,
};
use hmd_bootstrap::xr::version::{GraphicsRequirements, Version};
use hmd_bootstrap::xr::xr_instance::XRInstance;

const DEMO: ApplicationInfo = ApplicationInfo {
    application_name: "demo",
    application_version: 0,
    engine_name: "demo engine",
    engine_version: 0,
};

fn range(min: (u16, u16, u32), max: (u16, u16, u32)) -> GraphicsRequirements {
    GraphicsRequirements {
        min_api_version_supported: Version::new(min.0, min.1, min.2),
        max_api_version_supported: Version::new(max.0, max.1, max.2),
    }
}

fn run(start: Negotiation, replies: Vec<RuntimeReply>) -> NegotiationStep {
    let mut negotiation = start;
    let mut last = None;
    for reply in replies {
        match negotiation.step(reply) {
            NegotiationStep::Next(next) => negotiation = next,
            ended => {
                last = Some(ended);
                break;
            }
        }
    }
    match last {
        Some(ended) => ended,
        None => NegotiationStep::Next(negotiation),
    }
}

fn answers(
    system: u64,
    modes: Vec<BlendMode>,
    requirements: GraphicsRequirements,
) -> Vec<RuntimeReply> {
    vec![
        RuntimeReply::Loaded,
        RuntimeReply::InstanceCreated,
        RuntimeReply::System(system),
        RuntimeReply::BlendModes(modes),
        RuntimeReply::GraphicsRequirements(requirements),
    ]
}

fn failure(step: NegotiationStep) -> NegotiationError {
    match step {
        NegotiationStep::Failed(error) => error,
        other => panic!("expected a failure, got {:?}", other),
    }
}

fn descriptor(step: NegotiationStep) -> XRInstance {
    match step {
        NegotiationStep::Finished(instance) => instance,
        other => panic!("expected a descriptor, got {:?}", other),
    }
}

#[test]
fn first_blend_mode_of_three_is_selected() {
    let modes = [BlendMode::Additive, BlendMode::Opaque, BlendMode::AlphaBlend];
    assert_eq!(select_blend_mode(&modes), Some(BlendMode::Additive));
}

#[test]
fn selection_ignores_what_follows_the_first() {
    let a = [BlendMode::Other(7), BlendMode::Opaque];
    let b = [BlendMode::Other(7), BlendMode::AlphaBlend, BlendMode::Additive];
    assert_eq!(select_blend_mode(&a), Some(BlendMode::Other(7)));
    assert_eq!(select_blend_mode(&a), select_blend_mode(&b));
}

#[test]
fn nothing_is_selected_from_no_modes() {
    assert_eq!(select_blend_mode(&[]), None);
}

#[test]
fn desktop_needs_the_graphics_extension_only() {
    assert_eq!(
        required_extensions(Platform::Desktop),
        ExtensionSet { khr_vulkan_enable2: true, khr_android_create_instance: false }
    );
}

#[test]
fn android_needs_its_own_extension_too() {
    assert_eq!(
        required_extensions(Platform::Android),
        ExtensionSet { khr_vulkan_enable2: true, khr_android_create_instance: true }
    );
}

#[test]
fn descriptor_of_supported_backend() {
    let requirements = range((1, 0, 0), (1, 2, 0));
    let instance =
        XRInstance::new(5, BlendMode::Opaque, requirements, Version::new(1, 1, 0)).unwrap();
    assert_eq!(instance.system_id(), 5);
    assert_eq!(instance.environment_blend_mode(), BlendMode::Opaque);
    assert_eq!(instance.requirements(), requirements);
    assert_eq!(instance.backend_version(), Version::new(1, 1, 0));
}

#[test]
fn no_descriptor_below_the_minimum() {
    let requirements = range((1, 2, 0), (1, 3, 0));
    let r = XRInstance::new(5, BlendMode::Opaque, requirements, Version::new(1, 1, 0));
    assert_eq!(
        r.unwrap_err(),
        NegotiationError::VersionUnsupported { backend: Version::new(1, 1, 0), requirements }
    );
}

#[test]
fn no_descriptor_above_the_maximum_major() {
    let requirements = range((1, 0, 0), (1, 5, 0));
    let r = XRInstance::new(5, BlendMode::Opaque, requirements, Version::new(2, 0, 0));
    assert_eq!(
        r.unwrap_err(),
        NegotiationError::VersionUnsupported { backend: Version::new(2, 0, 0), requirements }
    );
}

#[test]
fn negotiation_starts_by_loading_the_runtime() {
    let n = Negotiation::start(Platform::Desktop, DEMO, Version::new(1, 1, 0));
    assert_eq!(n.stage, NegotiationStage::AwaitLoader);
    assert_eq!(n.request(), RuntimeRequest::LoadRuntime { initialize_loader: false });
}

#[test]
fn android_initialises_the_loader_first() {
    let n = Negotiation::start(Platform::Android, DEMO, Version::new(1, 1, 0));
    assert_eq!(n.request(), RuntimeRequest::LoadRuntime { initialize_loader: true });
}

#[test]
fn requests_come_in_the_fixed_order() {
    let mut n = Negotiation::start(Platform::Desktop, DEMO, Version::new(1, 1, 0));
    let mut requests = vec![n.request()];
    let replies = vec![
        RuntimeReply::Loaded,
        RuntimeReply::InstanceCreated,
        RuntimeReply::System(42),
        RuntimeReply::BlendModes(vec![BlendMode::AlphaBlend, BlendMode::Opaque]),
    ];
    for reply in replies {
        match n.step(reply) {
            NegotiationStep::Next(next) => n = next,
            other => panic!("ended early: {:?}", other),
        }
        requests.push(n.request());
    }
    assert_eq!(
        requests,
        vec![
            RuntimeRequest::LoadRuntime { initialize_loader: false },
            RuntimeRequest::CreateInstance {
                application: DEMO,
                extensions: ExtensionSet {
                    khr_vulkan_enable2: true,
                    khr_android_create_instance: false
                },
            },
            RuntimeRequest::GetSystem { form_factor: FormFactor::HeadMountedDisplay },
            RuntimeRequest::EnumerateBlendModes {
                system_id: 42,
                view_configuration: ViewConfigurationType::PrimaryStereo,
            },
            RuntimeRequest::GetGraphicsRequirements { system_id: 42 },
        ]
    );
    assert_eq!(
        n.stage,
        NegotiationStage::AwaitRequirements {
            system_id: 42,
            environment_blend_mode: BlendMode::AlphaBlend
        }
    );
}

#[test]
fn android_instance_is_created_with_both_extensions() {
    let n = Negotiation::start(Platform::Android, DEMO, Version::new(1, 1, 0));
    let n = match n.step(RuntimeReply::Loaded) {
        NegotiationStep::Next(next) => next,
        other => panic!("ended early: {:?}", other),
    };
    assert_eq!(
        n.request(),
        RuntimeRequest::CreateInstance {
            application: DEMO,
            extensions: ExtensionSet { khr_vulkan_enable2: true, khr_android_create_instance: true },
        }
    );
}

#[test]
fn negotiation_end_to_end() {
    let requirements = range((1, 1, 0), (1, 3, 0));
    let start = Negotiation::start(Platform::Desktop, DEMO, Version::new(1, 2, 0));
    let modes = vec![BlendMode::Opaque, BlendMode::Additive];
    let instance = descriptor(run(start, answers(1, modes, requirements)));
    assert_eq!(instance.environment_blend_mode(), BlendMode::Opaque);
    assert_eq!(instance.system_id(), 1);
    assert_eq!(instance.requirements(), requirements);
    assert_eq!(instance.backend_version(), Version::new(1, 2, 0));
    assert!(instance.requirements().supports(&instance.backend_version()));
}

#[test]
fn negotiation_succeeds_inside_the_range() {
    let start = Negotiation::start(Platform::Desktop, DEMO, Version::new(1, 1, 0));
    let step = run(start, answers(1, vec![BlendMode::Opaque], range((1, 0, 0), (1, 2, 0))));
    assert!(matches!(step, NegotiationStep::Finished(_)));
}

#[test]
fn negotiation_fails_below_the_minimum() {
    let requirements = range((1, 2, 0), (1, 3, 0));
    let start = Negotiation::start(Platform::Desktop, DEMO, Version::new(1, 1, 0));
    let step = run(start, answers(1, vec![BlendMode::Opaque], requirements));
    assert_eq!(
        failure(step),
        NegotiationError::VersionUnsupported { backend: Version::new(1, 1, 0), requirements }
    );
}

#[test]
fn negotiation_fails_above_the_maximum_major() {
    let requirements = range((1, 0, 0), (1, 5, 0));
    let start = Negotiation::start(Platform::Desktop, DEMO, Version::new(2, 0, 0));
    let step = run(start, answers(1, vec![BlendMode::Opaque], requirements));
    assert_eq!(
        failure(step),
        NegotiationError::VersionUnsupported { backend: Version::new(2, 0, 0), requirements }
    );
}

#[test]
fn negotiation_fails_without_a_loader() {
    let start = Negotiation::start(Platform::Desktop, DEMO, Version::new(1, 1, 0));
    let step = run(start, vec![RuntimeReply::Failed(0)]);
    assert_eq!(failure(step), NegotiationError::LoaderNotFound);
}

#[test]
fn negotiation_fails_when_the_instance_is_refused() {
    let start = Negotiation::start(Platform::Desktop, DEMO, Version::new(1, 1, 0));
    let step = run(start, vec![RuntimeReply::Loaded, RuntimeReply::Failed(-2)]);
    assert_eq!(
        failure(step),
        NegotiationError::RuntimeCallFailed { call: RuntimeCall::CreateInstance, code: -2 }
    );
}

#[test]
fn negotiation_fails_without_a_head_mounted_display() {
    let start = Negotiation::start(Platform::Desktop, DEMO, Version::new(1, 1, 0));
    let replies =
        vec![RuntimeReply::Loaded, RuntimeReply::InstanceCreated, RuntimeReply::Failed(-35)];
    assert_eq!(failure(run(start, replies)), NegotiationError::NoHeadMountedDisplay { code: -35 });
}

#[test]
fn negotiation_fails_when_blend_modes_cannot_be_enumerated() {
    let start = Negotiation::start(Platform::Desktop, DEMO, Version::new(1, 1, 0));
    let replies = vec![
        RuntimeReply::Loaded,
        RuntimeReply::InstanceCreated,
        RuntimeReply::System(1),
        RuntimeReply::Failed(-1),
    ];
    assert_eq!(
        failure(run(start, replies)),
        NegotiationError::RuntimeCallFailed { call: RuntimeCall::EnumerateBlendModes, code: -1 }
    );
}

#[test]
fn negotiation_fails_when_no_blend_mode_is_listed() {
    let start = Negotiation::start(Platform::Desktop, DEMO, Version::new(1, 1, 0));
    let step = run(start, answers(1, vec![], range((1, 0, 0), (1, 2, 0))));
    assert_eq!(failure(step), NegotiationError::NoBlendMode);
}

#[test]
fn negotiation_fails_when_requirements_cannot_be_had() {
    let start = Negotiation::start(Platform::Desktop, DEMO, Version::new(1, 1, 0));
    let replies = vec![
        RuntimeReply::Loaded,
        RuntimeReply::InstanceCreated,
        RuntimeReply::System(1),
        RuntimeReply::BlendModes(vec![BlendMode::Opaque]),
        RuntimeReply::Failed(-12),
    ];
    assert_eq!(
        failure(run(start, replies)),
        NegotiationError::RuntimeCallFailed {
            call: RuntimeCall::GetGraphicsRequirements,
            code: -12
        }
    );
}

#[test]
fn reply_to_another_call_ends_the_negotiation() {
    let start = Negotiation::start(Platform::Desktop, DEMO, Version::new(1, 1, 0));
    let step = run(start, vec![RuntimeReply::System(1)]);
    assert_eq!(
        failure(step),
        NegotiationError::UnexpectedReply { awaited: RuntimeCall::LoadRuntime }
    );
    let step = run(start, vec![RuntimeReply::Loaded, RuntimeReply::Loaded]);
    assert_eq!(
        failure(step),
        NegotiationError::UnexpectedReply { awaited: RuntimeCall::CreateInstance }
    );
}

#[test]
fn same_replies_give_the_same_descriptor() {
    let requirements = range((1, 0, 0), (1, 2, 0));
    let start = Negotiation::start(Platform::Desktop, DEMO, Version::new(1, 1, 0));
    let modes = vec![BlendMode::Additive, BlendMode::Opaque, BlendMode::AlphaBlend];
    let a = descriptor(run(start, answers(8, modes.clone(), requirements)));
    let b = descriptor(run(start, answers(8, modes, requirements)));
    assert_eq!(a.environment_blend_mode(), BlendMode::Additive);
    assert_eq!(b.environment_blend_mode(), BlendMode::Additive);
    assert_eq!(a.system_id(), b.system_id());
}
