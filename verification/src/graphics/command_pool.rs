//! The pool that the command buffers of one queue family are allocated from.

use vstd::prelude::*;

use crate::graphics::backend::{BackendReply, GraphicsError, NativeObject};

verus! {

/// How the buffers of a pool may be used.
#[derive(Clone, Copy, Debug, PartialEq, Eq, Structural)]
pub struct CommandPoolCreateFlags {
    /// Buffers are short-lived: freed or reset soon after they are recorded.
    pub transient: bool,
    /// Each buffer may be reset by itself, without resetting the pool.
    pub reset_command_buffer: bool,
}

/// What the backend is asked for when a pool is created.
#[derive(Clone, Copy, Debug, PartialEq, Eq, Structural)]
pub struct CommandPoolCreateInfo {
    pub queue_family_index: u32,
    pub flags: CommandPoolCreateFlags,
}

/// A command pool of the backend, with the queue family it was created for.
#[derive(Debug)]
pub struct CommandPool {
    command_pool: u64,
    queue_family_index: u32,
}

/// What a `CommandPool` stands for.
pub struct CommandPoolView {
    pub command_pool: u64,
    pub queue_family_index: u32,
}

impl View for CommandPool {
    type V = CommandPoolView;

    closed spec fn view(&self) -> CommandPoolView {
        CommandPoolView {
            command_pool: self.command_pool,
            queue_family_index: self.queue_family_index,
        }
    }
}

impl CommandPool {
    /// The request for a pool on `queue_family_index`: transient, and with
    /// buffers that can be reset one by one.
    pub open spec fn spec_create_info(queue_family_index: u32) -> CommandPoolCreateInfo {
        CommandPoolCreateInfo {
            queue_family_index,
            flags: CommandPoolCreateFlags { transient: true, reset_command_buffer: true },
        }
    }

    #[verifier::when_used_as_spec(spec_create_info)]
    pub fn create_info(queue_family_index: u32) -> (info: CommandPoolCreateInfo)
        ensures
            info == CommandPool::spec_create_info(queue_family_index),
    {
        CommandPoolCreateInfo {
            queue_family_index,
            flags: CommandPoolCreateFlags { transient: true, reset_command_buffer: true },
        }
    }

    /// The pool that the backend created in reply to
    /// `create_info(queue_family_index)`, or the failure if it refused the
    /// queue family.
    pub fn new(queue_family_index: u32, reply: BackendReply) -> (r: Result<
        CommandPool,
        GraphicsError,
    >)
        ensures
            match reply {
                BackendReply::Created(handle) => r matches Ok(pool) && pool@ == (CommandPoolView {
                    command_pool: handle,
                    queue_family_index,
                }),
                BackendReply::Rejected(code) => r matches Err(error) && error == (
                GraphicsError::CreationFailed { object: NativeObject::CommandPool, code }),
            },
    {
        match reply {
            BackendReply::Created(handle) => Ok(
                CommandPool { command_pool: handle, queue_family_index },
            ),
            BackendReply::Rejected(code) => Err(
                GraphicsError::CreationFailed { object: NativeObject::CommandPool, code },
            ),
        }
    }

    pub fn handle(&self) -> (h: u64)
        ensures
            h == self@.command_pool,
    {
        self.command_pool
    }

    pub fn queue_family_index(&self) -> (index: u32)
        ensures
            index == self@.queue_family_index,
    {
        self.queue_family_index
    }

    /// Whether buffers of this pool may be submitted to a queue of
    /// `queue_family`: only to the family the pool was created for.
    pub fn serves(&self, queue_family: u32) -> (ok: bool)
        ensures
            ok == (queue_family == self@.queue_family_index),
    {
        queue_family == self.queue_family_index
    }
}

} // verus!
