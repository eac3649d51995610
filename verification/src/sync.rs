//! Fences and semaphores of the frame slots.

use vstd::prelude::*;

verus! {

/// `VK_FENCE_CREATE_SIGNALED_BIT`.
pub const VK_FENCE_CREATE_SIGNALED_BIT: u32 = 0x1;

/// Which of the two semaphores of a frame slot.
#[derive(Clone, Copy, Debug, PartialEq, Eq, Structural)]
pub enum SemaphoreRole {
    /// Signalled by the presentation engine when the acquired image may
    /// be drawn to; waited on by the submission.
    ImageAvailable,
    /// Signalled by the submission when drawing is complete; waited on by
    /// the presentation.
    RenderFinished,
}

/// A semaphore of a frame slot.
#[derive(Clone, Copy, Debug, PartialEq, Eq, Structural)]
pub struct Semaphore {
    pub slot: usize,
    pub role: SemaphoreRole,
}

/// Everything that creating a fence needs to be told.
#[derive(Clone, Copy, Debug, PartialEq, Eq, Structural)]
pub struct Fence {
    pub flags: u32,
}

impl Semaphore {
    /// The semaphore of `slot` that plays `role`.
    pub fn new(slot: usize, role: SemaphoreRole) -> (semaphore: Semaphore)
        ensures
            semaphore == (Semaphore { slot, role }),
    {
        Semaphore { slot, role }
    }
}

impl Fence {
    /// A fence that starts out signaled or not. The in-flight fence of a
    /// frame slot starts out signaled, so that the first wait on it
    /// returns at once.
    pub fn new(signaled: bool) -> (fence: Fence)
        ensures
            fence.flags == if signaled {
                VK_FENCE_CREATE_SIGNALED_BIT
            } else {
                0
            },
    {
        let flags: u32 = if signaled {
            VK_FENCE_CREATE_SIGNALED_BIT
        } else {
            0
        };
        Fence { flags }
    }
}

} // verus!
