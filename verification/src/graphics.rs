//! Construction of the graphics pipeline.

pub mod backend;
pub mod command_pool;
pub mod config;
pub mod pipeline;
pub mod pipeline_laws;
pub mod shader_module;
