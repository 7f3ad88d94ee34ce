//! The pipeline state that is fixed when the pipeline is created.

use vstd::prelude::*;

verus! {

/// The bit pattern of the single-precision number 1.0.
pub const LINE_WIDTH_ONE: u32 = 0x3f80_0000;

/// The programmable stage that a shader module is compiled for.
#[derive(Clone, Copy, Debug, PartialEq, Eq, Structural)]
pub enum ShaderStage {
    Vertex,
    Fragment,
}

/// What a pipeline is bound as when commands are recorded.
#[derive(Clone, Copy, Debug, PartialEq, Eq, Structural)]
pub enum BindPoint {
    Graphics,
    Compute,
}

#[derive(Clone, Copy, Debug, PartialEq, Eq, Structural)]
pub enum PrimitiveTopology {
    PointList,
    LineList,
    LineStrip,
    TriangleList,
    TriangleStrip,
    TriangleFan,
}

#[derive(Clone, Copy, Debug, PartialEq, Eq, Structural)]
pub enum CullMode {
    /// No face is culled.
    Disabled,
    Front,
    Back,
    FrontAndBack,
}

#[derive(Clone, Copy, Debug, PartialEq, Eq, Structural)]
pub enum PolygonMode {
    Fill,
    Line,
    Point,
}

#[derive(Clone, Copy, Debug, PartialEq, Eq, Structural)]
pub enum StencilOp {
    Keep,
    Zero,
    Replace,
    IncrementAndClamp,
    DecrementAndClamp,
    Invert,
    IncrementAndWrap,
    DecrementAndWrap,
}

#[derive(Clone, Copy, Debug, PartialEq, Eq, Structural)]
pub enum CompareOp {
    Never,
    Less,
    Equal,
    LessOrEqual,
    Greater,
    NotEqual,
    GreaterOrEqual,
    Always,
}

#[derive(Clone, Copy, Debug, PartialEq, Eq, Structural)]
pub enum BlendFactor {
    Zero,
    One,
    SrcColor,
    OneMinusSrcColor,
    DstColor,
    OneMinusDstColor,
    SrcAlpha,
    OneMinusSrcAlpha,
    DstAlpha,
    OneMinusDstAlpha,
}

#[derive(Clone, Copy, Debug, PartialEq, Eq, Structural)]
pub enum BlendOp {
    Add,
    Subtract,
    ReverseSubtract,
    Min,
    Max,
}

/// The resources a pipeline expects to be bound: counts of descriptor set
/// layouts and of push-constant ranges.
#[derive(Clone, Copy, Debug, PartialEq, Eq, Structural)]
pub struct PipelineLayoutInfo {
    pub set_layouts: u32,
    pub push_constant_ranges: u32,
}

/// The vertex buffers a pipeline reads: counts of bindings and attributes.
#[derive(Clone, Copy, Debug, PartialEq, Eq, Structural)]
pub struct VertexInputState {
    pub bindings: u32,
    pub attributes: u32,
}

/// Viewports and scissors. A count without values baked into the pipeline
/// needs the matching dynamic state.
#[derive(Clone, Copy, Debug, PartialEq, Eq, Structural)]
pub struct ViewportState {
    pub viewport_count: u32,
    pub scissor_count: u32,
}

/// The state that is supplied per draw instead of being baked in.
#[derive(Clone, Copy, Debug, PartialEq, Eq, Structural)]
pub struct DynamicState {
    pub viewport: bool,
    pub scissor: bool,
}

#[derive(Clone, Copy, Debug, PartialEq, Eq, Structural)]
pub struct RasterizationState {
    pub cull_mode: CullMode,
    pub polygon_mode: PolygonMode,
    /// The line width as the bit pattern of a single-precision number.
    pub line_width_bits: u32,
}

/// How many samples are taken of each pixel.
#[derive(Clone, Copy, Debug, PartialEq, Eq, Structural)]
pub enum SampleCount {
    Type1,
    Type2,
    Type4,
    Type8,
    Type16,
    Type32,
    Type64,
}

#[derive(Clone, Copy, Debug, PartialEq, Eq, Structural)]
pub struct MultisampleState {
    pub rasterization_samples: SampleCount,
}

#[derive(Clone, Copy, Debug, PartialEq, Eq, Structural)]
pub struct StencilOpState {
    pub fail_op: StencilOp,
    pub pass_op: StencilOp,
    pub depth_fail_op: StencilOp,
    pub compare_op: CompareOp,
    pub compare_mask: u32,
    pub write_mask: u32,
    pub reference: u32,
}

#[derive(Clone, Copy, Debug, PartialEq, Eq, Structural)]
pub struct DepthStencilState {
    pub depth_test_enable: bool,
    pub depth_write_enable: bool,
    pub stencil_test_enable: bool,
    pub front: StencilOpState,
    pub back: StencilOpState,
}

/// The color channels that a draw may write.
#[derive(Clone, Copy, Debug, PartialEq, Eq, Structural)]
pub struct ColorWriteMask {
    pub r: bool,
    pub g: bool,
    pub b: bool,
    pub a: bool,
}

#[derive(Clone, Copy, Debug, PartialEq, Eq, Structural)]
pub struct ColorBlendAttachment {
    pub blend_enable: bool,
    pub src_color_blend_factor: BlendFactor,
    pub dst_color_blend_factor: BlendFactor,
    pub color_blend_op: BlendOp,
    pub src_alpha_blend_factor: BlendFactor,
    pub dst_alpha_blend_factor: BlendFactor,
    pub alpha_blend_op: BlendOp,
    pub color_write_mask: ColorWriteMask,
}

/// Everything about a pipeline but the handles it is built from.
#[derive(Clone, Copy, Debug, PartialEq, Eq, Structural)]
pub struct PipelineConfig {
    pub layout: PipelineLayoutInfo,
    pub vertex_input: VertexInputState,
    pub topology: PrimitiveTopology,
    pub viewport: ViewportState,
    pub dynamic: DynamicState,
    pub rasterization: RasterizationState,
    pub multisample: MultisampleState,
    pub depth_stencil: DepthStencilState,
    /// The one color attachment of the target render pass.
    pub color_blend: ColorBlendAttachment,
    pub subpass: u32,
}

impl StencilOpState {
    /// The stencil state that changes nothing and lets every fragment pass.
    pub open spec fn spec_noop() -> StencilOpState {
        StencilOpState {
            fail_op: StencilOp::Keep,
            pass_op: StencilOp::Keep,
            depth_fail_op: StencilOp::Keep,
            compare_op: CompareOp::Always,
            compare_mask: 0,
            write_mask: 0,
            reference: 0,
        }
    }

    #[verifier::when_used_as_spec(spec_noop)]
    pub fn noop() -> (s: StencilOpState)
        ensures
            s == StencilOpState::spec_noop(),
    {
        StencilOpState {
            fail_op: StencilOp::Keep,
            pass_op: StencilOp::Keep,
            depth_fail_op: StencilOp::Keep,
            compare_op: CompareOp::Always,
            compare_mask: 0,
            write_mask: 0,
            reference: 0,
        }
    }
}

impl PipelineConfig {
    /// The state of the pipeline that draws one triangle whose vertices the
    /// vertex stage makes up itself: nothing is bound, nothing is culled,
    /// depth and stencil tests are off, and the one color attachment takes
    /// the source color as it is, alpha excluded.
    pub open spec fn spec_single_triangle() -> PipelineConfig {
        PipelineConfig {
            layout: PipelineLayoutInfo { set_layouts: 0, push_constant_ranges: 0 },
            vertex_input: VertexInputState { bindings: 0, attributes: 0 },
            topology: PrimitiveTopology::TriangleList,
            viewport: ViewportState { viewport_count: 1, scissor_count: 1 },
            dynamic: DynamicState { viewport: true, scissor: true },
            rasterization: RasterizationState {
                cull_mode: CullMode::Disabled,
                polygon_mode: PolygonMode::Fill,
                line_width_bits: LINE_WIDTH_ONE,
            },
            multisample: MultisampleState { rasterization_samples: SampleCount::Type1 },
            depth_stencil: DepthStencilState {
                depth_test_enable: false,
                depth_write_enable: false,
                stencil_test_enable: false,
                front: StencilOpState::spec_noop(),
                back: StencilOpState::spec_noop(),
            },
            color_blend: ColorBlendAttachment {
                blend_enable: true,
                src_color_blend_factor: BlendFactor::One,
                dst_color_blend_factor: BlendFactor::Zero,
                color_blend_op: BlendOp::Add,
                src_alpha_blend_factor: BlendFactor::Zero,
                dst_alpha_blend_factor: BlendFactor::Zero,
                alpha_blend_op: BlendOp::Add,
                color_write_mask: ColorWriteMask { r: true, g: true, b: true, a: false },
            },
            subpass: 0,
        }
    }

    /// A pipeline that bakes in no viewport or scissor values must declare
    /// both as dynamic state, and needs as many scissors as viewports. One
    /// that does not test depth must not write it.
    pub open spec fn is_consistent(self) -> bool {
        &&& self.viewport.viewport_count >= 1
        &&& self.viewport.scissor_count == self.viewport.viewport_count
        &&& self.dynamic.viewport
        &&& self.dynamic.scissor
        &&& (!self.depth_stencil.depth_test_enable ==> !self.depth_stencil.depth_write_enable)
    }

    #[verifier::when_used_as_spec(spec_single_triangle)]
    pub fn single_triangle() -> (c: PipelineConfig)
        ensures
            c == PipelineConfig::spec_single_triangle(),
            c.is_consistent(),
    {
        PipelineConfig {
            layout: PipelineLayoutInfo { set_layouts: 0, push_constant_ranges: 0 },
            vertex_input: VertexInputState { bindings: 0, attributes: 0 },
            topology: PrimitiveTopology::TriangleList,
            viewport: ViewportState { viewport_count: 1, scissor_count: 1 },
            dynamic: DynamicState { viewport: true, scissor: true },
            rasterization: RasterizationState {
                cull_mode: CullMode::Disabled,
                polygon_mode: PolygonMode::Fill,
                line_width_bits: LINE_WIDTH_ONE,
            },
            multisample: MultisampleState { rasterization_samples: SampleCount::Type1 },
            depth_stencil: DepthStencilState {
                depth_test_enable: false,
                depth_write_enable: false,
                stencil_test_enable: false,
                front: StencilOpState::noop(),
                back: StencilOpState::noop(),
            },
            color_blend: ColorBlendAttachment {
                blend_enable: true,
                src_color_blend_factor: BlendFactor::One,
                dst_color_blend_factor: BlendFactor::Zero,
                color_blend_op: BlendOp::Add,
                src_alpha_blend_factor: BlendFactor::Zero,
                dst_alpha_blend_factor: BlendFactor::Zero,
                alpha_blend_op: BlendOp::Add,
                color_write_mask: ColorWriteMask { r: true, g: true, b: true, a: false },
            },
            subpass: 0,
        }
    }
}

} // verus!
