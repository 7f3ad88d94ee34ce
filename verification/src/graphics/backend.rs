//! What passes between this library and the graphics backend: which object
//! is asked for, and what the backend answers.

use vstd::prelude::*;

use crate::graphics::config::ShaderStage;
use crate::graphics::shader_module::BytecodeError;

verus! {

/// A native object that the backend is asked to create.
#[derive(Clone, Copy, Debug, PartialEq, Eq, Structural)]
pub enum NativeObject {
    PipelineLayout,
    ShaderModule(ShaderStage),
    GraphicsPipeline,
    CommandPool,
}

/// What the backend answers to a creation request.
#[derive(Clone, Copy, Debug, PartialEq, Eq, Structural)]
pub enum BackendReply {
    /// The object exists and this is its handle.
    Created(u64),
    /// The object was not created; the backend's result code.
    Rejected(i32),
}

/// Why a native object could not be had. Neither failure is retried.
#[derive(Clone, Copy, Debug, PartialEq, Eq, Structural)]
pub enum GraphicsError {
    /// The bytecode of a stage is no shader bytecode.
    MalformedBytecode { stage: ShaderStage, reason: BytecodeError },
    /// The backend refused to create an object, with this result code.
    CreationFailed { object: NativeObject, code: i32 },
}

} // verus!
