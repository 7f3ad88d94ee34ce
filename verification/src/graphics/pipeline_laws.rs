//! What holds of every pipeline build, whatever the backend replies.

use vstd::prelude::*;

use crate::graphics::config::{BindPoint, PipelineConfig, ShaderStage};
use crate::graphics::backend::{BackendReply, GraphicsError, NativeObject};
use crate::graphics::pipeline::{
    BuildRequestView,
    BuildStage,
    BuildStepView,
    GraphicsPipelineInfo,
    Handles,
    PipelineBuildView,
    PipelineView,
};
use crate::graphics::shader_module::ShaderModuleView;

verus! {

/// The object that is created `k` replies into a build.
pub open spec fn object_in_order(k: int) -> NativeObject {
    if k == 0 {
        NativeObject::PipelineLayout
    } else if k == 1 {
        NativeObject::ShaderModule(ShaderStage::Vertex)
    } else if k == 2 {
        NativeObject::ShaderModule(ShaderStage::Fragment)
    } else {
        NativeObject::GraphicsPipeline
    }
}

/// The handle that a reply carries, if it carries one.
pub open spec fn handle_of(reply: BackendReply) -> Option<u64> {
    match reply {
        BackendReply::Created(handle) => Some(handle),
        BackendReply::Rejected(_) => None,
    }
}

/// The first `k` replies all report a created object.
pub open spec fn all_created(replies: Seq<BackendReply>, k: int) -> bool {
    forall|i: int| 0 <= i < k ==> (#[trigger] replies[i]) is Created
}

/// The handles that the first `k` replies of a build hand out, the pipeline
/// object apart.
pub open spec fn handles_after(replies: Seq<BackendReply>, k: int) -> Handles {
    Handles {
        layout: if k > 0 {
            handle_of(replies[0])
        } else {
            None
        },
        vertex_module: if k > 1 {
            handle_of(replies[1])
        } else {
            None
        },
        fragment_module: if k > 2 {
            handle_of(replies[2])
        } else {
            None
        },
    }
}

/// The handles that exist once a step has ended: those that the build still
/// holds, or those to release together with the layout that the pipeline
/// keeps.
pub open spec fn handles_of_step(step: BuildStepView) -> Handles {
    match step {
        BuildStepView::Next(build) => build.stage.holds(),
        BuildStepView::Finished { pipeline, release } => Handles {
            layout: Some(pipeline.layout),
            ..release
        },
        BuildStepView::Failed { release, .. } => release,
    }
}

/// No step loses a handle. A rejection releases all that the build holds. A
/// created shader module or layout is held by the build from then on. The
/// created pipeline takes the layout, and both shader modules are released.
pub proof fn lemma_step_accounts_for_handles(build: PipelineBuildView, reply: BackendReply)
    ensures
        reply is Rejected ==> build.advance(reply) is Failed && handles_of_step(
            build.advance(reply),
        ) == build.stage.holds(),
        reply matches BackendReply::Created(handle) ==> handles_of_step(build.advance(reply)) == (
        match build.stage {
            BuildStage::AwaitLayout => Handles { layout: Some(handle), ..build.stage.holds() },
            BuildStage::AwaitVertexModule { .. } => Handles {
                vertex_module: Some(handle),
                ..build.stage.holds()
            },
            BuildStage::AwaitFragmentModule { .. } => Handles {
                fragment_module: Some(handle),
                ..build.stage.holds()
            },
            BuildStage::AwaitPipeline { .. } => build.stage.holds(),
        }),
        build.advance(reply) matches BuildStepView::Finished { release, .. } ==> release.layout
            is None && release.vertex_module == build.stage.holds().vertex_module
            && release.fragment_module == build.stage.holds().fragment_module
            && release.vertex_module is Some && release.fragment_module is Some,
        build.advance(reply) matches BuildStepView::Next(next) ==> next.render_pass
            == build.render_pass && next.vertex_code == build.vertex_code && next.fragment_code
            == build.fragment_code,
{
}

/// After `k` created objects, `k` below four, a fresh build holds their
/// handles and waits for the next object in order.
pub proof fn lemma_build_progress(build: PipelineBuildView, replies: Seq<BackendReply>, k: int)
    requires
        build.stage == BuildStage::AwaitLayout,
        0 <= k < 4,
        k <= replies.len(),
        all_created(replies, k),
    ensures
        build.run(replies.take(k)) matches BuildStepView::Next(now) && now.stage.holds()
            == handles_after(replies, k) && now.stage.awaits() == object_in_order(k)
            && now.render_pass == build.render_pass && now.vertex_code == build.vertex_code
            && now.fragment_code == build.fragment_code,
{
    reveal_with_fuel(PipelineBuildView::run, 5);
    let prefix = replies.take(k);
    if k >= 1 {
        assert(replies[0] is Created);
        assert(prefix[0] == replies[0]);
        let rest1 = prefix.drop_first();
        if k >= 2 {
            assert(replies[1] is Created);
            assert(rest1[0] == replies[1]);
            let rest2 = rest1.drop_first();
            if k >= 3 {
                assert(replies[2] is Created);
                assert(rest2[0] == replies[2]);
                assert(rest2.drop_first().len() == 0);
            }
        }
    }
}

/// The pipeline object is asked for with the objects of its own build: the
/// layout and the two shader modules that the backend created for this
/// build, the render pass the build was begun for, and the single-triangle
/// state. One module is the vertex stage's and one the fragment stage's.
pub proof fn lemma_pipeline_is_created_from_own_objects(
    build: PipelineBuildView,
    replies: Seq<BackendReply>,
)
    requires
        build.stage == BuildStage::AwaitLayout,
        replies.len() >= 3,
        all_created(replies, 3),
    ensures
        build.run(replies.take(1))->Next_0.request() == BuildRequestView::CreateShaderModule(
            ShaderModuleView { stage: ShaderStage::Vertex, code: build.vertex_code },
        ),
        build.run(replies.take(2))->Next_0.request() == BuildRequestView::CreateShaderModule(
            ShaderModuleView { stage: ShaderStage::Fragment, code: build.fragment_code },
        ),
        build.run(replies.take(3))->Next_0.request() == BuildRequestView::CreateGraphicsPipeline(
            GraphicsPipelineInfo {
                config: PipelineConfig::spec_single_triangle(),
                layout: replies[0]->Created_0,
                vertex_module: replies[1]->Created_0,
                fragment_module: replies[2]->Created_0,
                render_pass: build.render_pass,
            },
        ),
{
    assert forall|k: int| 0 <= k <= 3 implies all_created(replies, k) by {
        assert forall|i: int| 0 <= i < k implies (#[trigger] replies[i]) is Created by {}
    }
    lemma_build_progress(build, replies, 1);
    lemma_build_progress(build, replies, 2);
    lemma_build_progress(build, replies, 3);
}

/// A fresh build ends with its fourth reply at the latest. It ends in a
/// pipeline exactly when the backend created all four objects: the pipeline
/// then owns the pipeline object and the layout, and both shader modules are
/// released. Else it fails at the first rejection, with the object that was
/// rejected and the backend's code, and releases every handle created before.
pub proof fn lemma_build_outcome(build: PipelineBuildView, replies: Seq<BackendReply>)
    requires
        build.stage == BuildStage::AwaitLayout,
        replies.len() >= 4,
    ensures
        !(build.run(replies) is Next),
        build.run(replies) is Finished <==> all_created(replies, 4),
        build.run(replies) matches BuildStepView::Finished { pipeline, release } ==> pipeline == (
        PipelineView {
            pipeline: replies[3]->Created_0,
            layout: replies[0]->Created_0,
            bind_point: BindPoint::Graphics,
        }) && release == handles_after(replies, 4).modules_only(),
        build.run(replies) matches BuildStepView::Failed { error, release } ==> exists|k: int|
            0 <= k < 4 && all_created(replies, k) && #[trigger] replies[k] == BackendReply::Rejected(
                error->code,
            ) && error == (GraphicsError::CreationFailed {
                object: object_in_order(k),
                code: error->code,
            }) && release == handles_after(replies, k),
{
    reveal_with_fuel(PipelineBuildView::run, 5);
    let r1 = replies.drop_first();
    let r2 = r1.drop_first();
    let r3 = r2.drop_first();
    assert(r1[0] == replies[1]);
    assert(r2[0] == replies[2]);
    assert(r3[0] == replies[3]);
    let out = build.run(replies);
    if replies[0] is Rejected {
        assert(all_created(replies, 0));
        assert(out is Failed);
    } else if replies[1] is Rejected {
        assert(all_created(replies, 1));
        assert(out is Failed);
    } else if replies[2] is Rejected {
        assert(all_created(replies, 2));
        assert(out is Failed);
    } else if replies[3] is Rejected {
        assert(all_created(replies, 3));
        assert(out is Failed);
    } else {
        assert(all_created(replies, 4));
        assert(out is Finished);
    }
}

/// No shader module outlives its build. Every module handle that the
/// backend hands out to a fresh build is among the handles released when
/// the build ends, in success as in failure.
pub proof fn lemma_no_shader_module_outlives_build(
    build: PipelineBuildView,
    replies: Seq<BackendReply>,
    k: int,
)
    requires
        build.stage == BuildStage::AwaitLayout,
        replies.len() >= 4,
        0 <= k < 4,
        all_created(replies, k + 1),
        object_in_order(k) is ShaderModule,
    ensures
        match build.run(replies) {
            BuildStepView::Next(_) => false,
            BuildStepView::Finished { release, .. } | BuildStepView::Failed { release, .. } => {
                if k == 1 {
                    release.vertex_module == Some(replies[k]->Created_0)
                } else {
                    release.fragment_module == Some(replies[k]->Created_0)
                }
            },
        },
{
    lemma_build_outcome(build, replies);
    assert(replies[k] is Created);
    match build.run(replies) {
        BuildStepView::Failed { error, release } => {
            let j = choose|j: int|
                0 <= j < 4 && all_created(replies, j) && #[trigger] replies[j]
                    == BackendReply::Rejected(error->code) && error == (
                GraphicsError::CreationFailed { object: object_in_order(j), code: error->code })
                    && release == handles_after(replies, j);
            if j <= k {
                assert(replies[j] is Created);
            }
        },
        _ => {},
    }
}

/// Two builds from the same render pass and bytecode are equivalent. When
/// the backend creates every object, both make the same requests but for the
/// handles in them, both end in a graphics pipeline that owns the objects of
/// its own build, and each releases its own two shader modules.
pub proof fn lemma_repeated_builds_are_equivalent(
    build: PipelineBuildView,
    first: Seq<BackendReply>,
    second: Seq<BackendReply>,
)
    requires
        build.stage == BuildStage::AwaitLayout,
        first.len() >= 4,
        second.len() >= 4,
        all_created(first, 4),
        all_created(second, 4),
    ensures
        forall|k: int|
            0 <= k < 3 ==> (#[trigger] build.run(first.take(k)))->Next_0.request() == build.run(
                second.take(k),
            )->Next_0.request(),
        build.run(first.take(3))->Next_0.request() matches BuildRequestView::CreateGraphicsPipeline(
            a,
        ) && build.run(second.take(3))->Next_0.request()
            matches BuildRequestView::CreateGraphicsPipeline(b) && a.config == b.config
            && a.render_pass == b.render_pass && a.config == PipelineConfig::spec_single_triangle()
            && a.render_pass == build.render_pass,
        build.run(first) matches BuildStepView::Finished { pipeline: p, release: r } && build.run(
            second,
        ) matches BuildStepView::Finished { pipeline: q, release: s } && p.bind_point
            == q.bind_point && p.pipeline == first[3]->Created_0 && q.pipeline
            == second[3]->Created_0 && p.layout == first[0]->Created_0 && q.layout
            == second[0]->Created_0 && r == handles_after(first, 4).modules_only() && s
            == handles_after(second, 4).modules_only(),
{
    lemma_build_outcome(build, first);
    lemma_build_outcome(build, second);
    assert forall|k: int| 0 <= k < 4 implies all_created(first, k) && all_created(second, k) by {
        assert forall|i: int| 0 <= i < k implies (#[trigger] first[i]) is Created by {}
        assert forall|i: int| 0 <= i < k implies (#[trigger] second[i]) is Created by {}
    }
    lemma_build_progress(build, first, 0);
    lemma_build_progress(build, second, 0);
    lemma_build_progress(build, first, 1);
    lemma_build_progress(build, second, 1);
    lemma_build_progress(build, first, 2);
    lemma_build_progress(build, second, 2);
    lemma_build_progress(build, first, 3);
    lemma_build_progress(build, second, 3);
}

} // verus!
