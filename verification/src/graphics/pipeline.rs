//! The graphics pipeline and the plan by which it is built.
//!
//! Building a pipeline takes four native objects, created in this order: the
//! pipeline layout, the vertex shader module, the fragment shader module and
//! the pipeline itself. A `PipelineBuild` knows which of them the backend
//! has handed out so far. It says what to create next, takes the backend's
//! reply, and when the build ends, in success or in failure, says which
//! handles must be destroyed so that none outlives the build.

use vstd::prelude::*;

use crate::graphics::backend::{BackendReply, GraphicsError, NativeObject};
use crate::graphics::config::{BindPoint, PipelineConfig, PipelineLayoutInfo, ShaderStage};
use crate::graphics::shader_module::{
    decode_error,
    is_spirv,
    spirv_words,
    ShaderModule,
    ShaderModuleView,
};

verus! {

/// The handles of a build that are not part of a pipeline.
#[derive(Clone, Copy, Debug, PartialEq, Eq, Structural)]
pub struct Handles {
    pub layout: Option<u64>,
    pub vertex_module: Option<u64>,
    pub fragment_module: Option<u64>,
}

/// How far a build has come, with the handles created on the way.
#[derive(Clone, Copy, Debug, PartialEq, Eq, Structural)]
pub enum BuildStage {
    AwaitLayout,
    AwaitVertexModule { layout: u64 },
    AwaitFragmentModule { layout: u64, vertex: u64 },
    AwaitPipeline { layout: u64, vertex: u64, fragment: u64 },
}

/// All that the backend needs to create the pipeline object: the fixed
/// state, one module for each of the two stages, the layout, and the render
/// pass whose subpass the pipeline draws in.
#[derive(Clone, Copy, Debug, PartialEq, Eq, Structural)]
pub struct GraphicsPipelineInfo {
    pub config: PipelineConfig,
    pub layout: u64,
    pub vertex_module: u64,
    pub fragment_module: u64,
    pub render_pass: u64,
}

/// A pipeline ready to draw with. It owns its pipeline object and the
/// layout that was created for it.
#[derive(Debug)]
pub struct Pipeline {
    pipeline: u64,
    layout: u64,
    bind_point: BindPoint,
}

/// What a `Pipeline` stands for.
pub struct PipelineView {
    pub pipeline: u64,
    pub layout: u64,
    pub bind_point: BindPoint,
}

impl View for Pipeline {
    type V = PipelineView;

    closed spec fn view(&self) -> PipelineView {
        PipelineView { pipeline: self.pipeline, layout: self.layout, bind_point: self.bind_point }
    }
}

impl Pipeline {
    #[verifier::type_invariant]
    spec fn well_formed(self) -> bool {
        self.bind_point == BindPoint::Graphics
    }

    /// The graphics pipeline of handle `pipeline` that owns `layout`.
    pub fn new(pipeline: u64, layout: u64) -> (p: Pipeline)
        ensures
            p@ == (PipelineView { pipeline, layout, bind_point: BindPoint::Graphics }),
    {
        Pipeline { pipeline, layout, bind_point: BindPoint::Graphics }
    }

    pub fn handle(&self) -> (h: u64)
        ensures
            h == self@.pipeline,
    {
        self.pipeline
    }

    pub fn layout(&self) -> (h: u64)
        ensures
            h == self@.layout,
    {
        self.layout
    }

    /// Every pipeline is bound as a graphics pipeline.
    pub fn bind_point(&self) -> (b: BindPoint)
        ensures
            b == self@.bind_point,
            b == BindPoint::Graphics,
    {
        proof {
            use_type_invariant(self);
        }
        self.bind_point
    }
}

/// What a build asks the backend to create next.
#[derive(Debug)]
pub enum BuildRequest<'a> {
    CreatePipelineLayout(PipelineLayoutInfo),
    CreateShaderModule(&'a ShaderModule),
    CreateGraphicsPipeline(GraphicsPipelineInfo),
}

/// What a `BuildRequest` stands for.
pub enum BuildRequestView {
    CreatePipelineLayout(PipelineLayoutInfo),
    CreateShaderModule(ShaderModuleView),
    CreateGraphicsPipeline(GraphicsPipelineInfo),
}

impl<'a> View for BuildRequest<'a> {
    type V = BuildRequestView;

    open spec fn view(&self) -> BuildRequestView {
        match *self {
            BuildRequest::CreatePipelineLayout(info) => BuildRequestView::CreatePipelineLayout(
                info,
            ),
            BuildRequest::CreateShaderModule(module) => BuildRequestView::CreateShaderModule(
                module@,
            ),
            BuildRequest::CreateGraphicsPipeline(info) => BuildRequestView::CreateGraphicsPipeline(
                info,
            ),
        }
    }
}

/// A build in progress.
#[derive(Debug)]
pub struct PipelineBuild {
    stage: BuildStage,
    render_pass: u64,
    vertex: ShaderModule,
    fragment: ShaderModule,
}

/// What a `PipelineBuild` stands for: its stage, the render pass it builds
/// for, and the words of its two shaders.
pub struct PipelineBuildView {
    pub stage: BuildStage,
    pub render_pass: u64,
    pub vertex_code: Seq<u32>,
    pub fragment_code: Seq<u32>,
}

/// How one step of a build ends.
#[derive(Debug)]
pub enum BuildStep {
    /// The build goes on and has a new request.
    Next(PipelineBuild),
    /// The pipeline is built. The handles in `release` must be destroyed.
    Finished { pipeline: Pipeline, release: Handles },
    /// The build has failed. The handles in `release` must be destroyed.
    Failed { error: GraphicsError, release: Handles },
}

/// What a `BuildStep` stands for.
pub enum BuildStepView {
    Next(PipelineBuildView),
    Finished { pipeline: PipelineView, release: Handles },
    Failed { error: GraphicsError, release: Handles },
}

impl View for PipelineBuild {
    type V = PipelineBuildView;

    closed spec fn view(&self) -> PipelineBuildView {
        PipelineBuildView {
            stage: self.stage,
            render_pass: self.render_pass,
            vertex_code: self.vertex@.code,
            fragment_code: self.fragment@.code,
        }
    }
}

impl View for BuildStep {
    type V = BuildStepView;

    open spec fn view(&self) -> BuildStepView {
        match *self {
            BuildStep::Next(build) => BuildStepView::Next(build@),
            BuildStep::Finished { pipeline, release } => BuildStepView::Finished {
                pipeline: pipeline@,
                release,
            },
            BuildStep::Failed { error, release } => BuildStepView::Failed { error, release },
        }
    }
}

impl Handles {
    /// No handle at all.
    pub open spec fn spec_empty() -> Handles {
        Handles { layout: None, vertex_module: None, fragment_module: None }
    }

    #[verifier::when_used_as_spec(spec_empty)]
    pub fn empty() -> (h: Handles)
        ensures
            h == Handles::spec_empty(),
    {
        Handles { layout: None, vertex_module: None, fragment_module: None }
    }

    /// The same handles without the layout.
    pub open spec fn modules_only(self) -> Handles {
        Handles { layout: None, ..self }
    }
}

impl BuildStage {
    /// The handles that the backend has created up to this stage.
    pub open spec fn holds(self) -> Handles {
        match self {
            BuildStage::AwaitLayout => Handles::spec_empty(),
            BuildStage::AwaitVertexModule { layout } => Handles {
                layout: Some(layout),
                vertex_module: None,
                fragment_module: None,
            },
            BuildStage::AwaitFragmentModule { layout, vertex } => Handles {
                layout: Some(layout),
                vertex_module: Some(vertex),
                fragment_module: None,
            },
            BuildStage::AwaitPipeline { layout, vertex, fragment } => Handles {
                layout: Some(layout),
                vertex_module: Some(vertex),
                fragment_module: Some(fragment),
            },
        }
    }

    /// The object that is created at this stage.
    pub open spec fn awaits(self) -> NativeObject {
        match self {
            BuildStage::AwaitLayout => NativeObject::PipelineLayout,
            BuildStage::AwaitVertexModule { .. } => NativeObject::ShaderModule(ShaderStage::Vertex),
            BuildStage::AwaitFragmentModule { .. } => NativeObject::ShaderModule(
                ShaderStage::Fragment,
            ),
            BuildStage::AwaitPipeline { .. } => NativeObject::GraphicsPipeline,
        }
    }
}

impl PipelineBuildView {
    /// What the build asks the backend to create at its stage.
    pub open spec fn request(self) -> BuildRequestView {
        match self.stage {
            BuildStage::AwaitLayout => BuildRequestView::CreatePipelineLayout(
                PipelineConfig::spec_single_triangle().layout,
            ),
            BuildStage::AwaitVertexModule { .. } => BuildRequestView::CreateShaderModule(
                ShaderModuleView { stage: ShaderStage::Vertex, code: self.vertex_code },
            ),
            BuildStage::AwaitFragmentModule { .. } => BuildRequestView::CreateShaderModule(
                ShaderModuleView { stage: ShaderStage::Fragment, code: self.fragment_code },
            ),
            BuildStage::AwaitPipeline { layout, vertex, fragment } => {
                BuildRequestView::CreateGraphicsPipeline(
                    GraphicsPipelineInfo {
                        config: PipelineConfig::spec_single_triangle(),
                        layout,
                        vertex_module: vertex,
                        fragment_module: fragment,
                        render_pass: self.render_pass,
                    },
                )
            },
        }
    }

    /// The build after the backend's reply to its request.
    ///
    /// A rejection ends the build and releases every handle created so far.
    /// A created object takes the build to its next stage; the pipeline
    /// object, which is the last, ends the build: the pipeline keeps the
    /// layout, and the two shader modules are released.
    pub open spec fn advance(self, reply: BackendReply) -> BuildStepView {
        match reply {
            BackendReply::Rejected(code) => BuildStepView::Failed {
                error: GraphicsError::CreationFailed { object: self.stage.awaits(), code },
                release: self.stage.holds(),
            },
            BackendReply::Created(handle) => match self.stage {
                BuildStage::AwaitLayout => BuildStepView::Next(
                    PipelineBuildView {
                        stage: BuildStage::AwaitVertexModule { layout: handle },
                        ..self
                    },
                ),
                BuildStage::AwaitVertexModule { layout } => BuildStepView::Next(
                    PipelineBuildView {
                        stage: BuildStage::AwaitFragmentModule { layout, vertex: handle },
                        ..self
                    },
                ),
                BuildStage::AwaitFragmentModule { layout, vertex } => BuildStepView::Next(
                    PipelineBuildView {
                        stage: BuildStage::AwaitPipeline { layout, vertex, fragment: handle },
                        ..self
                    },
                ),
                BuildStage::AwaitPipeline { layout, .. } => BuildStepView::Finished {
                    pipeline: PipelineView {
                        pipeline: handle,
                        layout,
                        bind_point: BindPoint::Graphics,
                    },
                    release: self.stage.holds().modules_only(),
                },
            },
        }
    }

    /// The build after a sequence of replies, each answering the request
    /// that the one before led to. Replies after the end of the build are
    /// not looked at.
    pub open spec fn run(self, replies: Seq<BackendReply>) -> BuildStepView
        decreases replies.len(),
    {
        if replies.len() == 0 {
            BuildStepView::Next(self)
        } else {
            match self.advance(replies[0]) {
                BuildStepView::Next(build) => build.run(replies.drop_first()),
                ended => ended,
            }
        }
    }
}

impl PipelineBuild {
    #[verifier::type_invariant]
    spec fn well_formed(self) -> bool {
        self.vertex@.stage == ShaderStage::Vertex && self.fragment@.stage == ShaderStage::Fragment
    }

    /// Begins the build of the single-triangle pipeline for `render_pass`.
    ///
    /// Both blobs are decoded before anything is asked of the backend, the
    /// vertex stage first: with malformed bytecode no build exists, and so
    /// no native object is ever created for it.
    pub fn start(render_pass: u64, vertex_bytecode: &[u8], fragment_bytecode: &[u8]) -> (r: Result<
        PipelineBuild,
        GraphicsError,
    >)
        ensures
            r is Ok <==> is_spirv(vertex_bytecode@) && is_spirv(fragment_bytecode@),
            vertex_bytecode@.len() % 4 != 0 || fragment_bytecode@.len() % 4 != 0 ==> r is Err,
            r matches Ok(build) ==> build@ == (PipelineBuildView {
                stage: BuildStage::AwaitLayout,
                render_pass,
                vertex_code: spirv_words(vertex_bytecode@),
                fragment_code: spirv_words(fragment_bytecode@),
            }),
            r matches Err(error) ==> error == (if !is_spirv(vertex_bytecode@) {
                GraphicsError::MalformedBytecode {
                    stage: ShaderStage::Vertex,
                    reason: decode_error(vertex_bytecode@),
                }
            } else {
                GraphicsError::MalformedBytecode {
                    stage: ShaderStage::Fragment,
                    reason: decode_error(fragment_bytecode@),
                }
            }),
    {
        let vertex = match ShaderModule::new(ShaderStage::Vertex, vertex_bytecode) {
            Ok(module) => module,
            Err(reason) => {
                return Err(GraphicsError::MalformedBytecode { stage: ShaderStage::Vertex, reason });
            },
        };
        let fragment = match ShaderModule::new(ShaderStage::Fragment, fragment_bytecode) {
            Ok(module) => module,
            Err(reason) => {
                return Err(GraphicsError::MalformedBytecode { stage: ShaderStage::Fragment, reason });
            },
        };
        Ok(PipelineBuild { stage: BuildStage::AwaitLayout, render_pass, vertex, fragment })
    }

    pub fn stage(&self) -> (s: BuildStage)
        ensures
            s == self@.stage,
    {
        self.stage
    }

    /// The handles that the backend has created for this build so far.
    pub fn holds(&self) -> (h: Handles)
        ensures
            h == self@.stage.holds(),
    {
        match self.stage {
            BuildStage::AwaitLayout => Handles::empty(),
            BuildStage::AwaitVertexModule { layout } => Handles {
                layout: Some(layout),
                vertex_module: None,
                fragment_module: None,
            },
            BuildStage::AwaitFragmentModule { layout, vertex } => Handles {
                layout: Some(layout),
                vertex_module: Some(vertex),
                fragment_module: None,
            },
            BuildStage::AwaitPipeline { layout, vertex, fragment } => Handles {
                layout: Some(layout),
                vertex_module: Some(vertex),
                fragment_module: Some(fragment),
            },
        }
    }

    /// What to ask of the backend now.
    pub fn request(&self) -> (request: BuildRequest<'_>)
        ensures
            request@ == self@.request(),
    {
        proof {
            use_type_invariant(self);
        }
        match self.stage {
            BuildStage::AwaitLayout => BuildRequest::CreatePipelineLayout(
                PipelineConfig::single_triangle().layout,
            ),
            BuildStage::AwaitVertexModule { .. } => BuildRequest::CreateShaderModule(&self.vertex),
            BuildStage::AwaitFragmentModule { .. } => BuildRequest::CreateShaderModule(
                &self.fragment,
            ),
            BuildStage::AwaitPipeline { layout, vertex, fragment } => {
                BuildRequest::CreateGraphicsPipeline(
                    GraphicsPipelineInfo {
                        config: PipelineConfig::single_triangle(),
                        layout,
                        vertex_module: vertex,
                        fragment_module: fragment,
                        render_pass: self.render_pass,
                    },
                )
            },
        }
    }

    /// Takes the backend's reply to `self.request()`.
    pub fn step(self, reply: BackendReply) -> (next: BuildStep)
        ensures
            next@ == self@.advance(reply),
    {
        proof {
            use_type_invariant(&self);
        }
        let handle = match reply {
            BackendReply::Created(handle) => handle,
            BackendReply::Rejected(code) => {
                let object = match self.stage {
                    BuildStage::AwaitLayout => NativeObject::PipelineLayout,
                    BuildStage::AwaitVertexModule { .. } => NativeObject::ShaderModule(
                        ShaderStage::Vertex,
                    ),
                    BuildStage::AwaitFragmentModule { .. } => NativeObject::ShaderModule(
                        ShaderStage::Fragment,
                    ),
                    BuildStage::AwaitPipeline { .. } => NativeObject::GraphicsPipeline,
                };
                return BuildStep::Failed {
                    error: GraphicsError::CreationFailed { object, code },
                    release: self.holds(),
                };
            },
        };
        let PipelineBuild { stage, render_pass, vertex, fragment } = self;
        match stage {
            BuildStage::AwaitLayout => BuildStep::Next(
                PipelineBuild {
                    stage: BuildStage::AwaitVertexModule { layout: handle },
                    render_pass,
                    vertex,
                    fragment,
                },
            ),
            BuildStage::AwaitVertexModule { layout } => BuildStep::Next(
                PipelineBuild {
                    stage: BuildStage::AwaitFragmentModule { layout, vertex: handle },
                    render_pass,
                    vertex,
                    fragment,
                },
            ),
            BuildStage::AwaitFragmentModule { layout, vertex: vertex_module } => BuildStep::Next(
                PipelineBuild {
                    stage: BuildStage::AwaitPipeline {
                        layout,
                        vertex: vertex_module,
                        fragment: handle,
                    },
                    render_pass,
                    vertex,
                    fragment,
                },
            ),
            BuildStage::AwaitPipeline { layout, vertex: vertex_module, fragment: fragment_module } => {
                BuildStep::Finished {
                    pipeline: Pipeline::new(handle, layout),
                    release: Handles {
                        layout: None,
                        vertex_module: Some(vertex_module),
                        fragment_module: Some(fragment_module),
                    },
                }
            },
        }
    }
}

} // verus!
