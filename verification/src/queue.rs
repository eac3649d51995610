//! Queues of the logical device, and what is handed to them.

use crate::sync::{Semaphore, SemaphoreRole};
use vstd::prelude::*;

verus! {

/// Which queue of the device: the family it belongs to and its number
/// within the family.
#[derive(Clone, Copy, Debug, PartialEq, Eq, Structural)]
pub struct Queue {
    pub family_idx: u32,
    pub queue_idx: u32,
}

/// A semaphore to wait on, and the pipeline stages that wait.
#[derive(Clone, Copy, Debug, PartialEq, Eq, Structural)]
pub struct Wait {
    pub semaphore: Semaphore,
    pub stage_mask: u32,
}

/// Which command buffer a submission runs.
#[derive(Clone, Copy, Debug, PartialEq, Eq, Structural)]
pub enum CommandBufferId {
    /// The command buffer of a frame slot.
    Frame { slot: usize },
    /// The command buffer allocated for a single upload.
    OneShot,
}

/// Everything that a submission of one command buffer needs to be told.
#[derive(Clone, Copy, Debug, PartialEq, Eq, Structural)]
pub struct SubmitInfo {
    pub queue: Queue,
    pub command_buffer: CommandBufferId,
    /// What the submission waits for before the stages named run.
    pub wait: Option<Wait>,
    /// The semaphore that is signalled when the commands are done.
    pub signal: Option<Semaphore>,
    /// The slot whose fence is signalled when the commands are done.
    pub fence: Option<usize>,
}

/// Everything that queueing an image for presentation needs to be told.
#[derive(Clone, Copy, Debug, PartialEq, Eq, Structural)]
pub struct PresentInfo {
    pub queue: Queue,
    /// The semaphore that presentation waits for.
    pub wait: Semaphore,
    /// The image of the swapchain to present.
    pub image_idx: u32,
}

impl Queue {
    /// The submission of the frame of `slot` on this queue: the slot's
    /// command buffer runs once the image is available, as far as the
    /// stages of `wait_stage_mask` go; when it is done, the slot's
    /// render-finished semaphore and its fence are signalled.
    pub open spec fn frame_submission(self, slot: usize, wait_stage_mask: u32) -> SubmitInfo {
        SubmitInfo {
            queue: self,
            command_buffer: CommandBufferId::Frame { slot },
            wait: Some(
                Wait {
                    semaphore: Semaphore { slot, role: SemaphoreRole::ImageAvailable },
                    stage_mask: wait_stage_mask,
                },
            ),
            signal: Some(Semaphore { slot, role: SemaphoreRole::RenderFinished }),
            fence: Some(slot),
        }
    }

    /// The submission of an upload on this queue: the one-shot command
    /// buffer, with nothing to wait for and nothing to signal.
    pub open spec fn upload_submission(self) -> SubmitInfo {
        SubmitInfo {
            queue: self,
            command_buffer: CommandBufferId::OneShot,
            wait: None,
            signal: None,
            fence: None,
        }
    }

    /// The presentation of image `image_idx` for the frame of `slot` on
    /// this queue: it waits for the slot's render-finished semaphore.
    pub open spec fn frame_presentation(self, slot: usize, image_idx: u32) -> PresentInfo {
        PresentInfo {
            queue: self,
            wait: Semaphore { slot, role: SemaphoreRole::RenderFinished },
            image_idx,
        }
    }

    /// The first queue of a family, the only one that the device opens.
    pub fn new(family_idx: u32) -> (queue: Queue)
        ensures
            queue == (Queue { family_idx, queue_idx: 0 }),
    {
        Queue { family_idx, queue_idx: 0 }
    }

    /// The submission of the frame of `slot`. See
    /// [`Queue::frame_submission`].
    pub fn submit_wait(&self, slot: usize, wait_stage_mask: u32) -> (info: SubmitInfo)
        ensures
            info == self.frame_submission(slot, wait_stage_mask),
    {
        SubmitInfo {
            queue: *self,
            command_buffer: CommandBufferId::Frame { slot },
            wait: Some(
                Wait {
                    semaphore: Semaphore::new(slot, SemaphoreRole::ImageAvailable),
                    stage_mask: wait_stage_mask,
                },
            ),
            signal: Some(Semaphore::new(slot, SemaphoreRole::RenderFinished)),
            fence: Some(slot),
        }
    }

    /// The submission of an upload. See [`Queue::upload_submission`].
    pub fn submit(&self) -> (info: SubmitInfo)
        ensures
            info == self.upload_submission(),
    {
        SubmitInfo {
            queue: *self,
            command_buffer: CommandBufferId::OneShot,
            wait: None,
            signal: None,
            fence: None,
        }
    }

    /// The presentation of an image for the frame of `slot`. See
    /// [`Queue::frame_presentation`].
    pub fn present(&self, slot: usize, image_idx: u32) -> (info: PresentInfo)
        ensures
            info == self.frame_presentation(slot, image_idx),
    {
        PresentInfo {
            queue: *self,
            wait: Semaphore::new(slot, SemaphoreRole::RenderFinished),
            image_idx,
        }
    }
}

/// The handshake of a frame. Its presentation waits for exactly the
/// semaphore that its submission signals, so no image is shown before it
/// has been drawn. Its submission waits for a semaphore of its own slot,
/// and signals the fence of its own slot, so that two frames in flight
/// never share a semaphore or a fence unless they share the slot.
pub proof fn lemma_frame_handshake(
    graphics: Queue,
    present: Queue,
    slot: usize,
    other_slot: usize,
    image_idx: u32,
    wait_stage_mask: u32,
)
    ensures
        graphics.frame_submission(slot, wait_stage_mask).signal == Some(
            present.frame_presentation(slot, image_idx).wait,
        ),
        slot != other_slot ==> {
            let one = graphics.frame_submission(slot, wait_stage_mask);
            let other = graphics.frame_submission(other_slot, wait_stage_mask);
            &&& one.wait != other.wait
            &&& one.signal != other.signal
            &&& one.fence != other.fence
            &&& one.command_buffer != other.command_buffer
            &&& one.signal != Some(present.frame_presentation(other_slot, image_idx).wait)
        },
{
}

} // verus!
