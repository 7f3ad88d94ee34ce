//! Bootstrap of stereo rendering for a head-mounted display.
//!
//! Two subsystems live here. `xr` negotiates with the display runtime: it
//! decides which requests are made, in which order, and whether the
//! rendering backend's version lies in the range the runtime supports.
//! `graphics` plans the construction of the graphics pipeline: the fixed
//! pipeline state, the decoding of shader bytecode, the order of the native
//! object creations and the release of every handle on every exit path.
//!
//! Neither subsystem performs a native call. Each hands out requests and
//! takes the replies, so that every decision is a total function of plain
//! values.

pub mod graphics;
pub mod xr;

pub use graphics::backend::{BackendReply, GraphicsError, NativeObject};
pub use graphics::command_pool::CommandPool;
pub use graphics::config::PipelineConfig;
pub use graphics::pipeline::{BuildRequest, BuildStep, Pipeline, PipelineBuild};
pub use graphics::shader_module::ShaderModule;
pub use xr::negotiation::{Negotiation, NegotiationStep};
pub use xr::runtime::{NegotiationError, RuntimeReply, RuntimeRequest};
pub use xr::version::{GraphicsRequirements, Version};
pub use xr::xr_instance::XRInstance;
