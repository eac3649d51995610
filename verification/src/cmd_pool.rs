//! Command pools and the command buffers allocated from them.

use vstd::prelude::*;

verus! {

/// `VK_COMMAND_POOL_CREATE_RESET_COMMAND_BUFFER_BIT`: each command buffer
/// of the pool can be reset on its own.
pub const VK_COMMAND_POOL_CREATE_RESET_COMMAND_BUFFER_BIT: u32 = 0x2;

/// `VK_COMMAND_BUFFER_LEVEL_PRIMARY`.
pub const VK_COMMAND_BUFFER_LEVEL_PRIMARY: u32 = 0;

/// Everything that creating a command pool needs to be told.
#[derive(Clone, Copy, Debug, PartialEq, Eq, Structural)]
pub struct CommandPool {
    pub flags: u32,
    pub queue_family_index: u32,
}

/// Everything that allocating command buffers needs to be told.
#[derive(Clone, Copy, Debug, PartialEq, Eq, Structural)]
pub struct CommandBufferAllocation {
    pub level: u32,
    pub count: u32,
}

impl CommandPool {
    /// The pool for a queue family: its buffers are reset one by one.
    pub open spec fn described(queue_family_idx: u32) -> CommandPool {
        CommandPool {
            flags: VK_COMMAND_POOL_CREATE_RESET_COMMAND_BUFFER_BIT,
            queue_family_index: queue_family_idx,
        }
    }

    /// The pool for a queue family. See [`CommandPool::described`].
    pub fn new(queue_family_idx: u32) -> (pool: CommandPool)
        ensures
            pool == CommandPool::described(queue_family_idx),
    {
        CommandPool {
            flags: VK_COMMAND_POOL_CREATE_RESET_COMMAND_BUFFER_BIT,
            queue_family_index: queue_family_idx,
        }
    }

    /// The allocation of `count` primary command buffers, or `None` where
    /// `count` is more than one allocation can ask for.
    pub fn create_command_buffers(&self, count: usize) -> (allocation: Option<
        CommandBufferAllocation,
    >)
        ensures
            allocation == if count <= u32::MAX {
                Some(CommandBufferAllocation { level: VK_COMMAND_BUFFER_LEVEL_PRIMARY, count: count as u32 })
            } else {
                None
            },
    {
        if count > u32::MAX as usize {
            None
        } else {
            Some(CommandBufferAllocation { level: VK_COMMAND_BUFFER_LEVEL_PRIMARY, count: count as u32 })
        }
    }

    /// The allocation of a single primary command buffer.
    pub fn create_command_buffer(&self) -> (allocation: CommandBufferAllocation)
        ensures
            allocation == (CommandBufferAllocation { level: VK_COMMAND_BUFFER_LEVEL_PRIMARY, count: 1 }),
    {
        CommandBufferAllocation { level: VK_COMMAND_BUFFER_LEVEL_PRIMARY, count: 1 }
    }
}

} // verus!
