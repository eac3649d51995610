//! The frame orchestrator.
//!
//! [`State`] decides, one driver call at a time, what happens next while a
//! frame is produced or the swapchain is rebuilt. It never talks to the
//! driver itself: every method hands back an [`Action`] for the caller to
//! perform, and the caller reports what came of it as an [`Event`].
//!
//! A *frame slot* is one of `frames_in_flight` rotating sets of command
//! buffer, two semaphores and a fence. A slot is *in flight* from the
//! moment its command buffer is submitted until its fence has been waited
//! on, or until the whole device has been found idle.
//!
//! The result of the present call is not examined: a swapchain that went
//! stale is noticed by the next acquire, or by a resize event.

use crate::command::{
    BufferId, ClearColor, Command, CommandBufferRecording,
    VK_COMMAND_BUFFER_USAGE_ONE_TIME_SUBMIT_BIT, VK_INDEX_TYPE_UINT16,
    VK_PIPELINE_BIND_POINT_GRAPHICS, VK_SHADER_STAGE_FRAGMENT_BIT,
};
use crate::float_bits::{F32_ONE, F32_ZERO};
use crate::push_constants::{PushConstants, PUSH_CONSTANTS_OFFSET, PUSH_CONSTANTS_SIZE};
use crate::swapchain::Extent2D;
use vstd::prelude::*;

verus! {

/// The number of frame slots that the renderer runs with.
pub const MAX_FRAMES_IN_FLIGHT: usize = 2;

/// `VK_SUCCESS`.
pub const VK_SUCCESS: i32 = 0;

/// `VK_SUBOPTIMAL_KHR`: the swapchain still works but no longer matches the
/// surface exactly.
pub const VK_SUBOPTIMAL_KHR: i32 = 1000001003;

/// `VK_ERROR_OUT_OF_DATE_KHR`: the swapchain can no longer be presented to.
pub const VK_ERROR_OUT_OF_DATE_KHR: i32 = -1000001004;

/// `VK_PIPELINE_STAGE_COLOR_ATTACHMENT_OUTPUT_BIT`.
pub const VK_PIPELINE_STAGE_COLOR_ATTACHMENT_OUTPUT_BIT: u32 = 0x400;

/// What the status code of an acquire means for the frame.
#[derive(Clone, Copy, Debug, PartialEq, Eq, Structural)]
pub enum AcquireOutcome {
    /// An image was handed out; rendering goes on. A suboptimal swapchain
    /// counts as this.
    Acquired,
    /// The swapchain is stale and has to be rebuilt before anything else.
    OutOfDate,
    /// Any other status: the device is in a state this renderer does not
    /// recover from.
    Failed,
}

/// The outcome that a status code of the acquire call stands for.
pub open spec fn acquire_outcome(result: i32) -> AcquireOutcome {
    if result == VK_SUCCESS || result == VK_SUBOPTIMAL_KHR {
        AcquireOutcome::Acquired
    } else if result == VK_ERROR_OUT_OF_DATE_KHR {
        AcquireOutcome::OutOfDate
    } else {
        AcquireOutcome::Failed
    }
}

/// Sorts the status code of an acquire call into the three cases that the
/// frame protocol tells apart.
pub fn classify_acquire(result: i32) -> (outcome: AcquireOutcome)
    ensures
        outcome == acquire_outcome(result),
{
    if result == VK_SUCCESS || result == VK_SUBOPTIMAL_KHR {
        AcquireOutcome::Acquired
    } else if result == VK_ERROR_OUT_OF_DATE_KHR {
        AcquireOutcome::OutOfDate
    } else {
        AcquireOutcome::Failed
    }
}

/// Where the orchestrator stands between two driver calls.
#[derive(Clone, Copy, Debug, PartialEq, Eq, Structural)]
pub enum Phase {
    /// Between ticks: a frame or a resize may begin.
    Ready,
    /// Waiting on the fence of the current slot.
    AwaitFence,
    /// Waiting for the presentation engine to hand out an image.
    AwaitAcquire,
    /// The fence of the current slot is being reset.
    AwaitFenceReset { image_index: u32 },
    /// The command buffer of the current slot is being recorded.
    Recording { image_index: u32 },
    /// The command buffer is being submitted to the graphics queue.
    Submitting { image_index: u32 },
    /// The image is being queued for presentation.
    Presenting { image_index: u32 },
    /// Swapchain rebuild: waiting for the device to go idle.
    Draining,
    /// Swapchain rebuild: the old framebuffers are being destroyed.
    DestroyingFramebuffers,
    /// Swapchain rebuild: the old pipeline is being destroyed.
    DestroyingPipeline,
    /// Swapchain rebuild: the old image views are being destroyed.
    DestroyingImageViews,
    /// Swapchain rebuild: the old swapchain is being destroyed.
    DestroyingSwapchain,
    /// Swapchain rebuild: the new swapchain is being created.
    CreatingSwapchain,
    /// Swapchain rebuild: one view per image is being created.
    CreatingImageViews,
    /// Swapchain rebuild: the pipeline is being built for the new extent.
    CreatingPipeline,
    /// Swapchain rebuild: one framebuffer per view is being created.
    CreatingFramebuffers,
    /// Shutdown: waiting for the device to go idle.
    Closing,
    /// Shutdown: everything is being destroyed.
    TearingDown,
    /// Everything has been destroyed.
    Closed,
    /// The acquire failed for good; nothing more will be rendered.
    Failed,
}

/// Why an acquire made the orchestrator give up.
#[derive(Clone, Copy, Debug, PartialEq, Eq, Structural)]
pub enum Fault {
    /// The acquire call returned this status, which is neither success,
    /// suboptimal nor out-of-date.
    AcquireFailed { result: i32 },
    /// The acquire call reported success with an image index that the
    /// swapchain does not have.
    ImageIndexOutOfRange { image_index: u32 },
}

/// The driver call that the caller has to perform next.
#[derive(Clone, Copy, Debug, PartialEq, Eq, Structural)]
pub enum Action {
    /// Nothing to do: the tick or the rebuild is complete, or the event
    /// needed no driver call.
    Idle,
    /// Presentation is suspended: block until the window delivers an event.
    WaitForEvents,
    /// Block on the in-flight fence of `slot`, without timeout.
    WaitFence { slot: usize },
    /// Acquire the next image, signalling the image-available semaphore of
    /// `slot`, without timeout.
    AcquireImage { slot: usize },
    /// Reset the in-flight fence of `slot`.
    ResetFence { slot: usize },
    /// Reset the command buffer of `slot` and record the frame into it,
    /// rendering to the framebuffer with index `framebuffer`.
    RecordCommands { slot: usize, framebuffer: u32 },
    /// Submit the command buffer of `slot` to the graphics queue: wait on
    /// the slot's image-available semaphore at `wait_stage_mask`, signal
    /// its render-finished semaphore and its in-flight fence.
    Submit { slot: usize, wait_stage_mask: u32 },
    /// Queue image `image_index` for presentation, waiting on the
    /// render-finished semaphore of `slot`.
    Present { slot: usize, image_index: u32 },
    /// Block until the device has finished all submitted work.
    WaitDeviceIdle,
    /// Destroy every framebuffer.
    DestroyFramebuffers,
    /// Destroy the graphics pipeline.
    DestroyPipeline,
    /// Destroy every image view.
    DestroyImageViews,
    /// Destroy the swapchain.
    DestroySwapchain,
    /// Query the surface again and create a swapchain for it.
    CreateSwapchain,
    /// Create one image view for each of the `count` swapchain images.
    CreateImageViews { count: u32 },
    /// Build the graphics pipeline for an extent of `width` by `height`.
    CreatePipeline { width: u32, height: u32 },
    /// Create one framebuffer for each of the `count` image views.
    CreateFramebuffers { count: u32 },
    /// Destroy everything that exists, in teardown order.
    DestroyAll,
    /// Terminate: the device is beyond recovery.
    Abort { fault: Fault },
}

/// What the caller reports after it has performed an [`Action`].
#[derive(Clone, Copy, Debug, PartialEq, Eq, Structural)]
pub enum Event {
    /// The fence wait returned: the slot's earlier work is complete.
    FenceSignaled,
    /// The acquire call returned `result` and wrote `image_index`.
    ImageAcquired { result: i32, image_index: u32 },
    /// The call has returned; nothing it returned matters here.
    Completed,
    /// The device-idle wait returned: no submitted work is left.
    DeviceIdle,
    /// A new swapchain exists, with this many images of this size.
    SwapchainCreated { image_count: u32, width: u32, height: u32 },
}

/// Why a call on [`State`] was turned down. The state is unchanged.
#[derive(Clone, Copy, Debug, PartialEq, Eq, Structural)]
pub enum ProtocolError {
    /// A frame or a resize can begin only between ticks.
    NotReady,
    /// The shutdown has begun already.
    ShuttingDown,
    /// The event does not answer the action that is outstanding.
    UnexpectedEvent,
}

/// The orchestrator as a mathematical value.
pub struct Model {
    /// Number of frame slots.
    pub frames: nat,
    /// Number of swapchain images, which is also the number of image views
    /// and of framebuffers.
    pub image_count: u32,
    /// Width of the swapchain images.
    pub width: u32,
    /// Height of the swapchain images.
    pub height: u32,
    /// Whether viewport and scissor are baked into the pipeline, so that
    /// the pipeline has to be rebuilt with the swapchain.
    pub static_viewport: bool,
    /// The slot that the next frame uses.
    pub current_frame: nat,
    /// The simulation clock: the bits of a 64-bit float.
    pub current_time: u64,
    /// Number of indices that a frame draws.
    pub index_count: u32,
    /// For each slot, whether work submitted from it may still be running.
    pub in_flight: Seq<bool>,
    /// Where the protocol stands.
    pub phase: Phase,
    /// Whether presentation is suspended because the window has no area.
    pub suspended: bool,
}

/// The phases in which the device is known to be idle: between the end of
/// a device-idle wait and the end of the rebuild or shutdown it began.
pub open spec fn quiescent(phase: Phase) -> bool {
    phase is DestroyingFramebuffers || phase is DestroyingPipeline || phase is DestroyingImageViews
        || phase is DestroyingSwapchain || phase is CreatingSwapchain || phase
        is CreatingImageViews || phase is CreatingPipeline || phase is CreatingFramebuffers
        || phase is TearingDown || phase is Closed
}

/// The phases of the shutdown.
pub open spec fn shutting_down(phase: Phase) -> bool {
    phase is Closing || phase is TearingDown || phase is Closed
}

/// Whether the action destroys a device resource.
pub open spec fn destroys(action: Action) -> bool {
    action is DestroyFramebuffers || action is DestroyPipeline || action is DestroyImageViews
        || action is DestroySwapchain || action is DestroyAll
}

/// Whether a reported size leaves the window without drawable area, as
/// the size of a minimized window does.
pub open spec fn zero_area(width: i32, height: i32) -> bool {
    width == 0 || height == 0
}

/// The colour that every frame is cleared to: opaque black.
pub open spec fn clear_color() -> ClearColor {
    ClearColor { r: F32_ZERO, g: F32_ZERO, b: F32_ZERO, a: F32_ONE }
}

/// Whether `recording` is the frame that state `m` draws into framebuffer
/// `framebuffer`: a recording for a single submission, since the slot's
/// command buffer is reset and recorded anew for every frame, that holds
/// the render pass over the whole picture, the pipeline,
/// the two geometry buffers, the constant block for the clock and the
/// picture size, and one indexed draw of the whole geometry.
pub open spec fn is_frame_recording(
    recording: CommandBufferRecording,
    m: Model,
    framebuffer: u32,
) -> bool {
    let commands = recording.commands@;
    &&& recording.flags == VK_COMMAND_BUFFER_USAGE_ONE_TIME_SUBMIT_BIT
    &&& commands.len() == 7
    &&& commands[0] == Command::BeginRenderPass {
        clear_color: clear_color(),
        framebuffer,
        extent: Extent2D { width: m.width, height: m.height },
    }
    &&& commands[1] == Command::BindPipeline { bind_point: VK_PIPELINE_BIND_POINT_GRAPHICS }
    &&& commands[2] == Command::BindVertexBuffers { buffer: BufferId::Vertex, offset: 0 }
    &&& commands[3] == Command::BindIndexBuffer {
        buffer: BufferId::Index,
        offset: 0,
        index_type: VK_INDEX_TYPE_UINT16,
    }
    &&& (commands[4] matches Command::PushConstants { shader_stages, offset, size, data }
        && shader_stages == VK_SHADER_STAGE_FRAGMENT_BIT && offset == PUSH_CONSTANTS_OFFSET && size
        == PUSH_CONSTANTS_SIZE && data.is_for(m.current_time, m.width, m.height))
    &&& commands[5] == Command::DrawIndexed {
        idx_count: m.index_count,
        inst_count: 1,
        first_idx: 0,
        vert_off: 0,
        first_inst: 0,
    }
    &&& commands[6] == Command::EndRenderPass
}

/// How a call on [`State`] answers: where the model allows the call, with
/// the model's action and in the model's next state; where it does not,
/// with `refusal` and in the state as it was.
pub open spec fn answers(
    outcome: Option<(Model, Action)>,
    before: Model,
    after: Model,
    result: Result<Action, ProtocolError>,
    refusal: ProtocolError,
) -> bool {
    match outcome {
        Some((next, action)) => result == Ok::<Action, ProtocolError>(action) && after == next,
        None => result == Err::<Action, ProtocolError>(refusal) && after == before,
    }
}

impl Model {
    /// What holds of every state that the orchestrator can be in.
    pub open spec fn inv(self) -> bool {
        &&& 1 <= self.frames <= usize::MAX
        &&& self.in_flight.len() == self.frames
        &&& self.current_frame < self.frames
        &&& (self.phase matches Phase::AwaitFenceReset { image_index } ==> image_index
            < self.image_count)
        &&& (self.phase matches Phase::Recording { image_index } ==> image_index
            < self.image_count)
        &&& (self.phase matches Phase::Submitting { image_index } ==> image_index
            < self.image_count)
        &&& (self.phase matches Phase::Presenting { image_index } ==> image_index
            < self.image_count)
        &&& (self.phase is AwaitAcquire || self.phase is AwaitFenceReset || self.phase is Recording
            ==> !self.in_flight[self.current_frame as int])
        &&& (self.phase is Submitting || self.phase is Presenting
            ==> self.in_flight[self.current_frame as int])
        &&& (quiescent(self.phase) ==> forall|k: int|
            0 <= k < self.frames ==> !#[trigger] self.in_flight[k])
        &&& (self.suspended ==> self.phase is Ready)
    }

    /// The state right after construction: between ticks, slot 0 next,
    /// nothing in flight (every fence is created signaled), the clock at
    /// zero.
    pub open spec fn initial(
        frames: nat,
        image_count: u32,
        width: u32,
        height: u32,
        static_viewport: bool,
        index_count: u32,
    ) -> Model {
        Model {
            frames,
            image_count,
            width,
            height,
            static_viewport,
            current_frame: 0,
            current_time: 0,
            index_count,
            in_flight: Seq::new(frames, |k: int| false),
            phase: Phase::Ready,
            suspended: false,
        }
    }

    /// The state with another phase.
    pub open spec fn to(self, phase: Phase) -> Model {
        Model { phase, ..self }
    }

    /// The state with the current slot marked as given.
    pub open spec fn mark(self, in_flight: bool) -> Model {
        Model { in_flight: self.in_flight.update(self.current_frame as int, in_flight), ..self }
    }

    /// The state with no slot in flight.
    pub open spec fn drained(self) -> Model {
        Model { in_flight: Seq::new(self.frames, |k: int| false), ..self }
    }

    /// The beginning of a tick. Between ticks it starts with the fence wait
    /// of the current slot, or asks to wait for events while presentation
    /// is suspended; in any other phase it is turned down.
    pub open spec fn present(self) -> Option<(Model, Action)> {
        if !(self.phase is Ready) {
            None
        } else if self.suspended {
            Some((self, Action::WaitForEvents))
        } else {
            Some(
                (
                    self.to(Phase::AwaitFence),
                    Action::WaitFence { slot: self.current_frame as usize },
                ),
            )
        }
    }

    /// A resize event. Without drawable area it suspends presentation and
    /// asks for no driver call; with area it lifts the suspension and
    /// begins the swapchain rebuild with the device-idle wait.
    pub open spec fn handle_resize(self, width: i32, height: i32) -> Option<(Model, Action)> {
        if !(self.phase is Ready) {
            None
        } else if zero_area(width, height) {
            Some((Model { suspended: true, ..self }, Action::Idle))
        } else {
            Some(
                (
                    Model { suspended: false, phase: Phase::Draining, ..self },
                    Action::WaitDeviceIdle,
                ),
            )
        }
    }

    /// The beginning of the shutdown: the device-idle wait. The shutdown
    /// can begin in any phase, between ticks, in the middle of a frame or
    /// of a rebuild, and after an acquire has failed for good, so that
    /// whichever way the renderer comes to its end, everything is torn
    /// down, and only after the device has gone idle. The action that was
    /// outstanding is given up. Only a shutdown that has begun cannot
    /// begin again.
    pub open spec fn shutdown(self) -> Option<(Model, Action)> {
        if shutting_down(self.phase) {
            None
        } else {
            Some(
                (
                    Model { suspended: false, phase: Phase::Closing, ..self },
                    Action::WaitDeviceIdle,
                ),
            )
        }
    }

    /// What an acquire result leads to.
    pub open spec fn acquired(self, result: i32, image_index: u32) -> (Model, Action) {
        match acquire_outcome(result) {
            AcquireOutcome::OutOfDate => (self.to(Phase::Draining), Action::WaitDeviceIdle),
            AcquireOutcome::Failed => (
                self.to(Phase::Failed),
                Action::Abort { fault: Fault::AcquireFailed { result } },
            ),
            AcquireOutcome::Acquired => if image_index < self.image_count {
                (
                    self.to(Phase::AwaitFenceReset { image_index }),
                    Action::ResetFence { slot: self.current_frame as usize },
                )
            } else {
                (
                    self.to(Phase::Failed),
                    Action::Abort { fault: Fault::ImageIndexOutOfRange { image_index } },
                )
            },
        }
    }

    /// The transition function: the state and the next action after
    /// `event` has answered the outstanding action, or `None` where the
    /// event answers nothing that is outstanding.
    pub open spec fn step(self, event: Event) -> Option<(Model, Action)> {
        let slot = self.current_frame as usize;
        match (self.phase, event) {
            (Phase::AwaitFence, Event::FenceSignaled) => Some(
                (self.mark(false).to(Phase::AwaitAcquire), Action::AcquireImage { slot }),
            ),
            (Phase::AwaitAcquire, Event::ImageAcquired { result, image_index }) => Some(
                self.acquired(result, image_index),
            ),
            (Phase::AwaitFenceReset { image_index }, Event::Completed) => Some(
                (
                    self.to(Phase::Recording { image_index }),
                    Action::RecordCommands { slot, framebuffer: image_index },
                ),
            ),
            (Phase::Recording { image_index }, Event::Completed) => Some(
                (
                    self.mark(true).to(Phase::Submitting { image_index }),
                    Action::Submit {
                        slot,
                        wait_stage_mask: VK_PIPELINE_STAGE_COLOR_ATTACHMENT_OUTPUT_BIT,
                    },
                ),
            ),
            (Phase::Submitting { image_index }, Event::Completed) => Some(
                (self.to(Phase::Presenting { image_index }), Action::Present { slot, image_index }),
            ),
            (Phase::Presenting { .. }, Event::Completed) => Some(
                (
                    Model {
                        current_frame: (self.current_frame + 1) % self.frames,
                        phase: Phase::Ready,
                        ..self
                    },
                    Action::Idle,
                ),
            ),
            (Phase::Draining, Event::DeviceIdle) => Some(
                (self.drained().to(Phase::DestroyingFramebuffers), Action::DestroyFramebuffers),
            ),
            (Phase::DestroyingFramebuffers, Event::Completed) => if self.static_viewport {
                Some((self.to(Phase::DestroyingPipeline), Action::DestroyPipeline))
            } else {
                Some((self.to(Phase::DestroyingImageViews), Action::DestroyImageViews))
            },
            (Phase::DestroyingPipeline, Event::Completed) => Some(
                (self.to(Phase::DestroyingImageViews), Action::DestroyImageViews),
            ),
            (Phase::DestroyingImageViews, Event::Completed) => Some(
                (self.to(Phase::DestroyingSwapchain), Action::DestroySwapchain),
            ),
            (Phase::DestroyingSwapchain, Event::Completed) => Some(
                (self.to(Phase::CreatingSwapchain), Action::CreateSwapchain),
            ),
            (Phase::CreatingSwapchain, Event::SwapchainCreated { image_count, width, height }) => {
                Some(
                    (
                        Model {
                            image_count,
                            width,
                            height,
                            phase: Phase::CreatingImageViews,
                            ..self
                        },
                        Action::CreateImageViews { count: image_count },
                    ),
                )
            },
            (Phase::CreatingImageViews, Event::Completed) => if self.static_viewport {
                Some(
                    (
                        self.to(Phase::CreatingPipeline),
                        Action::CreatePipeline { width: self.width, height: self.height },
                    ),
                )
            } else {
                Some(
                    (
                        self.to(Phase::CreatingFramebuffers),
                        Action::CreateFramebuffers { count: self.image_count },
                    ),
                )
            },
            (Phase::CreatingPipeline, Event::Completed) => Some(
                (
                    self.to(Phase::CreatingFramebuffers),
                    Action::CreateFramebuffers { count: self.image_count },
                ),
            ),
            (Phase::CreatingFramebuffers, Event::Completed) => Some(
                (self.to(Phase::Ready), Action::Idle),
            ),
            (Phase::Closing, Event::DeviceIdle) => Some(
                (self.drained().to(Phase::TearingDown), Action::DestroyAll),
            ),
            (Phase::TearingDown, Event::Completed) => Some((self.to(Phase::Closed), Action::Idle)),
            _ => None,
        }
    }
}


/// The frame orchestrator: the one piece of mutable state of the renderer.
pub struct State {
    frames_in_flight: usize,
    image_count: u32,
    width: u32,
    height: u32,
    static_viewport: bool,
    index_count: u32,
    current_frame: usize,
    current_time: u64,
    in_flight: Vec<bool>,
    phase: Phase,
    suspended: bool,
}

impl State {
    /// The mathematical value of the orchestrator.
    pub closed spec fn view(&self) -> Model {
        Model {
            frames: self.frames_in_flight as nat,
            image_count: self.image_count,
            width: self.width,
            height: self.height,
            static_viewport: self.static_viewport,
            current_frame: self.current_frame as nat,
            current_time: self.current_time,
            index_count: self.index_count,
            in_flight: self.in_flight@,
            phase: self.phase,
            suspended: self.suspended,
        }
    }

    /// An orchestrator for `frames_in_flight` frame slots over a swapchain
    /// of `image_count` images of `width` by `height`, every fence created
    /// signaled. `None` when there is no frame slot at all.
    pub fn new(
        frames_in_flight: usize,
        image_count: u32,
        width: u32,
        height: u32,
        static_viewport: bool,
        index_count: u32,
    ) -> (state: Option<State>)
        ensures
            state is Some <==> frames_in_flight >= 1,
            state matches Some(s) ==> s@ == Model::initial(
                frames_in_flight as nat,
                image_count,
                width,
                height,
                static_viewport,
                index_count,
            ) && s@.inv(),
    {
        if frames_in_flight == 0 {
            return None;
        }
        let in_flight = all_idle(frames_in_flight);
        let state = State {
            frames_in_flight,
            image_count,
            width,
            height,
            static_viewport,
            index_count,
            current_frame: 0,
            current_time: 0,
            in_flight,
            phase: Phase::Ready,
            suspended: false,
        };
        Some(state)
    }

    /// Begins a tick. See [`Model::present`].
    pub fn present(&mut self) -> (result: Result<Action, ProtocolError>)
        requires
            old(self)@.inv(),
        ensures
            final(self)@.inv(),
            answers(
                old(self)@.present(),
                old(self)@,
                final(self)@,
                result,
                ProtocolError::NotReady,
            ),
    {
        match self.phase {
            Phase::Ready => {
                if self.suspended {
                    Ok(Action::WaitForEvents)
                } else {
                    self.phase = Phase::AwaitFence;
                    Ok(Action::WaitFence { slot: self.current_frame })
                }
            },
            _ => Err(ProtocolError::NotReady),
        }
    }

    /// Takes a resize event of the window. See [`Model::handle_resize`].
    pub fn handle_resize(&mut self, width: i32, height: i32) -> (result: Result<
        Action,
        ProtocolError,
    >)
        requires
            old(self)@.inv(),
        ensures
            final(self)@.inv(),
            answers(
                old(self)@.handle_resize(width, height),
                old(self)@,
                final(self)@,
                result,
                ProtocolError::NotReady,
            ),
    {
        match self.phase {
            Phase::Ready => {
                if width == 0 || height == 0 {
                    self.suspended = true;
                    Ok(Action::Idle)
                } else {
                    self.suspended = false;
                    self.phase = Phase::Draining;
                    Ok(Action::WaitDeviceIdle)
                }
            },
            _ => Err(ProtocolError::NotReady),
        }
    }

    /// Begins the shutdown. See [`Model::shutdown`].
    pub fn shutdown(&mut self) -> (result: Result<Action, ProtocolError>)
        requires
            old(self)@.inv(),
        ensures
            final(self)@.inv(),
            answers(
                old(self)@.shutdown(),
                old(self)@,
                final(self)@,
                result,
                ProtocolError::ShuttingDown,
            ),
    {
        match self.phase {
            Phase::Closing | Phase::TearingDown | Phase::Closed => Err(ProtocolError::ShuttingDown),
            _ => {
                self.suspended = false;
                self.phase = Phase::Closing;
                Ok(Action::WaitDeviceIdle)
            },
        }
    }

    /// The commands of the frame that renders to framebuffer
    /// `image_index`, or `None` where the swapchain has no such image. See
    /// [`is_frame_recording`].
    pub fn record_commands_to_buffer(&self, image_index: u32) -> (recording: Option<
        CommandBufferRecording,
    >)
        ensures
            recording is Some <==> image_index < self@.image_count,
            recording matches Some(r) ==> is_frame_recording(r, self@, image_index),
    {
        if image_index >= self.image_count {
            return None;
        }
        let extent = Extent2D { width: self.width, height: self.height };
        let clear_color = ClearColor { r: F32_ZERO, g: F32_ZERO, b: F32_ZERO, a: F32_ONE };
        let push_constants = PushConstants::new(self.current_time, extent);
        let mut handle = CommandBufferRecording::record_with_flags(
            VK_COMMAND_BUFFER_USAGE_ONE_TIME_SUBMIT_BIT,
        );
        handle.begin_render_pass(clear_color, image_index, extent);
        handle.bind_pipeline(VK_PIPELINE_BIND_POINT_GRAPHICS);
        handle.bind_vertex_buffers(BufferId::Vertex, 0);
        handle.bind_index_buffer(BufferId::Index, 0, VK_INDEX_TYPE_UINT16);
        handle.push_constants(VK_SHADER_STAGE_FRAGMENT_BIT, PUSH_CONSTANTS_OFFSET, push_constants);
        handle.draw_indexed(self.index_count);
        handle.end_render_pass();
        Some(handle)
    }

    /// Sets the simulation clock to `t`, the bits of a 64-bit float; the
    /// time step `_dt` is not used. Nothing else changes.
    pub fn update(&mut self, _dt: u64, t: u64)
        requires
            old(self)@.inv(),
        ensures
            final(self)@ == (Model { current_time: t, ..old(self)@ }),
            final(self)@.inv(),
    {
        self.current_time = t;
    }

    /// Takes the answer to the outstanding action and says what to do
    /// next. See [`Model::step`].
    pub fn advance(&mut self, event: Event) -> (result: Result<Action, ProtocolError>)
        requires
            old(self)@.inv(),
        ensures
            final(self)@.inv(),
            answers(
                old(self)@.step(event),
                old(self)@,
                final(self)@,
                result,
                ProtocolError::UnexpectedEvent,
            ),
    {
        let slot = self.current_frame;
        match (self.phase, event) {
            (Phase::AwaitFence, Event::FenceSignaled) => {
                self.in_flight.set(slot, false);
                self.phase = Phase::AwaitAcquire;
                Ok(Action::AcquireImage { slot })
            },
            (Phase::AwaitAcquire, Event::ImageAcquired { result, image_index }) => {
                match classify_acquire(result) {
                    AcquireOutcome::OutOfDate => {
                        self.phase = Phase::Draining;
                        Ok(Action::WaitDeviceIdle)
                    },
                    AcquireOutcome::Failed => {
                        self.phase = Phase::Failed;
                        Ok(Action::Abort { fault: Fault::AcquireFailed { result } })
                    },
                    AcquireOutcome::Acquired => {
                        if image_index < self.image_count {
                            self.phase = Phase::AwaitFenceReset { image_index };
                            Ok(Action::ResetFence { slot })
                        } else {
                            self.phase = Phase::Failed;
                            Ok(
                                Action::Abort {
                                    fault: Fault::ImageIndexOutOfRange { image_index },
                                },
                            )
                        }
                    },
                }
            },
            (Phase::AwaitFenceReset { image_index }, Event::Completed) => {
                self.phase = Phase::Recording { image_index };
                Ok(Action::RecordCommands { slot, framebuffer: image_index })
            },
            (Phase::Recording { image_index }, Event::Completed) => {
                self.in_flight.set(slot, true);
                self.phase = Phase::Submitting { image_index };
                Ok(
                    Action::Submit {
                        slot,
                        wait_stage_mask: VK_PIPELINE_STAGE_COLOR_ATTACHMENT_OUTPUT_BIT,
                    },
                )
            },
            (Phase::Submitting { image_index }, Event::Completed) => {
                self.phase = Phase::Presenting { image_index };
                Ok(Action::Present { slot, image_index })
            },
            (Phase::Presenting { .. }, Event::Completed) => {
                self.current_frame = if slot + 1 == self.frames_in_flight {
                    0
                } else {
                    slot + 1
                };
                self.phase = Phase::Ready;
                assert(self.current_frame == (slot + 1) % (self.frames_in_flight as int)) by {
                    if slot + 1 < self.frames_in_flight {
                        vstd::arithmetic::div_mod::lemma_small_mod(
                            (slot + 1) as nat,
                            self.frames_in_flight as nat,
                        );
                    } else {
                        vstd::arithmetic::div_mod::lemma_mod_self_0(self.frames_in_flight as int);
                    }
                }
                Ok(Action::Idle)
            },
            (Phase::Draining, Event::DeviceIdle) => {
                self.in_flight = all_idle(self.frames_in_flight);
                self.phase = Phase::DestroyingFramebuffers;
                Ok(Action::DestroyFramebuffers)
            },
            (Phase::DestroyingFramebuffers, Event::Completed) => {
                if self.static_viewport {
                    self.phase = Phase::DestroyingPipeline;
                    Ok(Action::DestroyPipeline)
                } else {
                    self.phase = Phase::DestroyingImageViews;
                    Ok(Action::DestroyImageViews)
                }
            },
            (Phase::DestroyingPipeline, Event::Completed) => {
                self.phase = Phase::DestroyingImageViews;
                Ok(Action::DestroyImageViews)
            },
            (Phase::DestroyingImageViews, Event::Completed) => {
                self.phase = Phase::DestroyingSwapchain;
                Ok(Action::DestroySwapchain)
            },
            (Phase::DestroyingSwapchain, Event::Completed) => {
                self.phase = Phase::CreatingSwapchain;
                Ok(Action::CreateSwapchain)
            },
            (Phase::CreatingSwapchain, Event::SwapchainCreated { image_count, width, height }) => {
                self.image_count = image_count;
                self.width = width;
                self.height = height;
                self.phase = Phase::CreatingImageViews;
                Ok(Action::CreateImageViews { count: image_count })
            },
            (Phase::CreatingImageViews, Event::Completed) => {
                if self.static_viewport {
                    self.phase = Phase::CreatingPipeline;
                    Ok(Action::CreatePipeline { width: self.width, height: self.height })
                } else {
                    self.phase = Phase::CreatingFramebuffers;
                    Ok(Action::CreateFramebuffers { count: self.image_count })
                }
            },
            (Phase::CreatingPipeline, Event::Completed) => {
                self.phase = Phase::CreatingFramebuffers;
                Ok(Action::CreateFramebuffers { count: self.image_count })
            },
            (Phase::CreatingFramebuffers, Event::Completed) => {
                self.phase = Phase::Ready;
                Ok(Action::Idle)
            },
            (Phase::Closing, Event::DeviceIdle) => {
                self.in_flight = all_idle(self.frames_in_flight);
                self.phase = Phase::TearingDown;
                Ok(Action::DestroyAll)
            },
            (Phase::TearingDown, Event::Completed) => {
                self.phase = Phase::Closed;
                Ok(Action::Idle)
            },
            _ => Err(ProtocolError::UnexpectedEvent),
        }
    }
}

/// One `false` for each of `frames` slots.
fn all_idle(frames: usize) -> (flags: Vec<bool>)
    ensures
        flags@ == Seq::new(frames as nat, |k: int| false),
{
    let mut flags: Vec<bool> = Vec::new();
    while flags.len() < frames
        invariant
            flags.len() <= frames,
            forall|k: int| 0 <= k < flags.len() ==> !flags[k],
        decreases frames - flags.len(),
    {
        flags.push(false);
    }
    flags
}

} // verus!
