//! What the frame protocol guarantees, proved of the transition function
//! of [`Model`].
//!
//! The statements come in two shapes. Some speak of a single transition
//! out of any state that satisfies the invariant; together with the fact
//! that the invariant holds initially and is kept by every transition,
//! they hold along every run. Others speak of a whole run: a frame, a
//! swapchain rebuild, a series of resize events.

use crate::lifecycle::{creation_rank, rebuilt, Resource};
use crate::state::{
    acquire_outcome, destroys, quiescent, shutting_down, zero_area, Action, Event, Model, Phase,
    VK_PIPELINE_STAGE_COLOR_ATTACHMENT_OUTPUT_BIT,
};
use vstd::prelude::*;

verus! {

/// The state after `events` have arrived in order, and the actions that
/// were asked for on the way. An event that the state does not accept
/// changes nothing and asks for nothing.
pub open spec fn run(start: Model, events: Seq<Event>) -> (Model, Seq<Action>)
    decreases events.len(),
{
    if events.len() == 0 {
        (start, Seq::<Action>::empty())
    } else {
        let (before, actions) = run(start, events.drop_last());
        match before.step(events.last()) {
            Some((next, action)) => (next, actions.push(action)),
            None => (before, actions),
        }
    }
}

/// The state after resize events with the given sizes have arrived in
/// order between ticks, and the actions that were asked for.
pub open spec fn resized(start: Model, sizes: Seq<(i32, i32)>) -> (Model, Seq<Action>)
    decreases sizes.len(),
{
    if sizes.len() == 0 {
        (start, Seq::<Action>::empty())
    } else {
        let (before, actions) = resized(start, sizes.drop_last());
        match before.handle_resize(sizes.last().0, sizes.last().1) {
            Some((next, action)) => (next, actions.push(action)),
            None => (before, actions),
        }
    }
}

/// The events of a frame whose acquire returned `result` and
/// `image_index`, after the tick has begun.
pub open spec fn frame_events(result: i32, image_index: u32) -> Seq<Event> {
    seq![
        Event::FenceSignaled,
        Event::ImageAcquired { result, image_index },
        Event::Completed,
        Event::Completed,
        Event::Completed,
        Event::Completed,
    ]
}

/// The events of a swapchain rebuild that ends with a swapchain of
/// `image_count` images of `width` by `height`, after the device-idle
/// wait has been asked for.
pub open spec fn rebuild_events(
    static_viewport: bool,
    image_count: u32,
    width: u32,
    height: u32,
) -> Seq<Event> {
    if static_viewport {
        seq![
            Event::DeviceIdle,
            Event::Completed,
            Event::Completed,
            Event::Completed,
            Event::Completed,
            Event::SwapchainCreated { image_count, width, height },
            Event::Completed,
            Event::Completed,
            Event::Completed,
        ]
    } else {
        seq![
            Event::DeviceIdle,
            Event::Completed,
            Event::Completed,
            Event::Completed,
            Event::SwapchainCreated { image_count, width, height },
            Event::Completed,
            Event::Completed,
        ]
    }
}

/// The actions of a swapchain rebuild, after the device-idle wait.
pub open spec fn rebuild_actions(
    static_viewport: bool,
    image_count: u32,
    width: u32,
    height: u32,
) -> Seq<Action> {
    if static_viewport {
        seq![
            Action::DestroyFramebuffers,
            Action::DestroyPipeline,
            Action::DestroyImageViews,
            Action::DestroySwapchain,
            Action::CreateSwapchain,
            Action::CreateImageViews { count: image_count },
            Action::CreatePipeline { width, height },
            Action::CreateFramebuffers { count: image_count },
            Action::Idle,
        ]
    } else {
        seq![
            Action::DestroyFramebuffers,
            Action::DestroyImageViews,
            Action::DestroySwapchain,
            Action::CreateSwapchain,
            Action::CreateImageViews { count: image_count },
            Action::CreateFramebuffers { count: image_count },
            Action::Idle,
        ]
    }
}

/// Whether the action submits the command buffer of `slot`.
pub open spec fn submits(action: Action, slot: nat) -> bool {
    action matches Action::Submit { slot: s, .. } && s == slot
}

/// Whether the event is the answer of an acquire that found the swapchain
/// out of date.
pub open spec fn reports_out_of_date(event: Event) -> bool {
    event matches Event::ImageAcquired { result, .. } && acquire_outcome(result) is OutOfDate
}

/// Whether the event is the answer of an acquire that wrote `image_index`.
pub open spec fn hands_out(event: Event, image_index: u32) -> bool {
    event matches Event::ImageAcquired { image_index: acquired, .. } && acquired == image_index
}

/// The invariant holds of every initial state with at least one slot.
pub proof fn lemma_initial_inv(
    frames: nat,
    image_count: u32,
    width: u32,
    height: u32,
    static_viewport: bool,
    index_count: u32,
)
    requires
        1 <= frames <= usize::MAX,
    ensures
        Model::initial(frames, image_count, width, height, static_viewport, index_count).inv(),
{
}

/// Every transition keeps the invariant: those that begin a tick, a
/// resize or the shutdown, and those that answer an event.
pub proof fn lemma_inv_is_kept(m: Model, event: Event, width: i32, height: i32)
    requires
        m.inv(),
    ensures
        m.step(event) matches Some((next, _)) ==> next.inv(),
        m.present() matches Some((next, _)) ==> next.inv(),
        m.handle_resize(width, height) matches Some((next, _)) ==> next.inv(),
        m.shutdown() matches Some((next, _)) ==> next.inv(),
{
}

/// The invariant holds after any sequence of events, accepted or not.
pub proof fn lemma_inv_along_run(start: Model, events: Seq<Event>)
    requires
        start.inv(),
    ensures
        run(start, events).0.inv(),
    decreases events.len(),
{
    if events.len() > 0 {
        lemma_inv_along_run(start, events.drop_last());
        lemma_inv_is_kept(run(start, events.drop_last()).0, events.last(), 0, 0);
    }
}

/// A command buffer is reset and recorded only for the current slot, and
/// only while that slot is not in flight: the work submitted from it
/// earlier is known to be complete.
pub proof fn lemma_record_only_when_slot_idle(m: Model, event: Event)
    requires
        m.inv(),
    ensures
        m.step(event) matches Some((_, action)) ==> (action matches Action::RecordCommands {
            slot,
            ..
        } ==> slot == m.current_frame && !m.in_flight[slot as int]),
{
}

/// However the orchestrator got to where it is, it does not ask for a
/// command buffer to be recorded while the slot is in flight: the same as
/// [`lemma_record_only_when_slot_idle`], of the state after any sequence
/// of events.
pub proof fn lemma_record_only_when_slot_idle_along_run(
    start: Model,
    events: Seq<Event>,
    event: Event,
)
    requires
        start.inv(),
    ensures
        ({
            let m = run(start, events).0;
            m.step(event) matches Some((_, action)) ==> (action matches Action::RecordCommands {
                slot,
                ..
            } ==> slot == m.current_frame && !m.in_flight[slot as int])
        }),
{
    lemma_inv_along_run(start, events);
    lemma_record_only_when_slot_idle(run(start, events).0, event);
}

/// A slot comes into flight only through the submission of its own
/// command buffer, and leaves it only when its fence has been waited on
/// or the whole device has been found idle. Beginning a tick, a resize or
/// the shutdown changes no slot.
pub proof fn lemma_in_flight_changes(m: Model, event: Event, k: int, width: i32, height: i32)
    requires
        m.inv(),
        0 <= k < m.frames,
    ensures
        m.step(event) matches Some((next, action)) ==> {
            &&& (!m.in_flight[k] && next.in_flight[k] ==> submits(action, k as nat))
            &&& (m.in_flight[k] && !next.in_flight[k] ==> event is DeviceIdle || (event
                is FenceSignaled && m.phase is AwaitFence && k == m.current_frame))
        },
        m.present() matches Some((next, _)) ==> next.in_flight == m.in_flight,
        m.handle_resize(width, height) matches Some((next, _)) ==> next.in_flight == m.in_flight,
        m.shutdown() matches Some((next, _)) ==> next.in_flight == m.in_flight,
{
}

/// The framebuffer that a frame renders to is the one of the image that
/// the acquire of this frame returned, and so is the image presented; the
/// slot number plays no part in either.
pub proof fn lemma_framebuffer_is_acquired_image(m: Model, event: Event)
    requires
        m.inv(),
    ensures
        m.step(event) matches Some((next, action)) ==> {
            &&& (action matches Action::RecordCommands { framebuffer, .. } ==> m.phase
                == Phase::AwaitFenceReset { image_index: framebuffer })
            &&& (action matches Action::Present { image_index, .. } ==> m.phase
                == Phase::Submitting { image_index })
            &&& (next.phase matches Phase::AwaitFenceReset { image_index } ==> hands_out(
                event,
                image_index,
            ))
            &&& (next.phase matches Phase::Recording { image_index } ==> m.phase
                == Phase::AwaitFenceReset { image_index })
            &&& (next.phase matches Phase::Submitting { image_index } ==> m.phase
                == Phase::Recording { image_index })
        },
{
}

/// A whole frame. From a state between ticks that is not suspended, a
/// tick whose acquire succeeds with image `image_index` asks, in this
/// order, for: the fence wait of the current slot, the acquire, the fence
/// reset, the recording against framebuffer `image_index`, the submission
/// and the presentation of image `image_index`. It ends between ticks
/// with the slot in flight and the next slot current.
pub proof fn lemma_frame(m: Model, result: i32, image_index: u32)
    requires
        m.inv(),
        m.phase is Ready,
        !m.suspended,
        acquire_outcome(result) is Acquired,
        image_index < m.image_count,
    ensures
        m.present() matches Some((begun, first)) && {
            let slot = m.current_frame as usize;
            &&& first == Action::WaitFence { slot }
            &&& run(begun, frame_events(result, image_index)) == (
                Model {
                    current_frame: (m.current_frame + 1) % m.frames,
                    in_flight: m.in_flight.update(m.current_frame as int, true),
                    ..m
                },
                seq![
                    Action::AcquireImage { slot },
                    Action::ResetFence { slot },
                    Action::RecordCommands { slot, framebuffer: image_index },
                    Action::Submit {
                        slot,
                        wait_stage_mask: VK_PIPELINE_STAGE_COLOR_ATTACHMENT_OUTPUT_BIT,
                    },
                    Action::Present { slot, image_index },
                    Action::Idle,
                ],
            )
        },
{
    let slot = m.current_frame as usize;
    let events = frame_events(result, image_index);
    let actions = seq![
        Action::AcquireImage { slot },
        Action::ResetFence { slot },
        Action::RecordCommands { slot, framebuffer: image_index },
        Action::Submit { slot, wait_stage_mask: VK_PIPELINE_STAGE_COLOR_ATTACHMENT_OUTPUT_BIT },
        Action::Present { slot, image_index },
        Action::Idle,
    ];
    let s0 = m.to(Phase::AwaitFence);
    let s1 = s0.mark(false).to(Phase::AwaitAcquire);
    let s2 = s1.to(Phase::AwaitFenceReset { image_index });
    let s3 = s2.to(Phase::Recording { image_index });
    let s4 = s3.mark(true).to(Phase::Submitting { image_index });
    let s5 = s4.to(Phase::Presenting { image_index });
    let s6 = Model { current_frame: (m.current_frame + 1) % m.frames, phase: Phase::Ready, ..s5 };
    assert(actions.take(0) =~= Seq::<Action>::empty());
    lemma_run_extends(s0, events, actions, 0, s0, s1);
    lemma_run_extends(s0, events, actions, 1, s1, s2);
    lemma_run_extends(s0, events, actions, 2, s2, s3);
    lemma_run_extends(s0, events, actions, 3, s3, s4);
    lemma_run_extends(s0, events, actions, 4, s4, s5);
    lemma_run_extends(s0, events, actions, 5, s5, s6);
    assert(s6.in_flight =~= m.in_flight.update(m.current_frame as int, true));
}

/// Resize events without drawable area, however many, ask for no driver
/// call at all, and in particular begin no swapchain rebuild. They leave
/// the state as it was but for the suspension.
pub proof fn lemma_zero_area_resizes_rebuild_nothing(m: Model, sizes: Seq<(i32, i32)>)
    requires
        m.inv(),
        m.phase is Ready,
        forall|i: int| 0 <= i < sizes.len() ==> zero_area(#[trigger] sizes[i].0, sizes[i].1),
    ensures
        resized(m, sizes).0 == (Model { suspended: m.suspended || sizes.len() > 0, ..m }),
        resized(m, sizes).1.len() == sizes.len(),
        forall|i: int| 0 <= i < sizes.len() ==> #[trigger] resized(m, sizes).1[i] == Action::Idle,
    decreases sizes.len(),
{
    if sizes.len() > 0 {
        lemma_zero_area_resizes_rebuild_nothing(m, sizes.drop_last());
    }
}

/// While presentation is suspended a tick asks only to wait for events,
/// and changes nothing.
pub proof fn lemma_suspended_tick_waits(m: Model)
    requires
        m.inv(),
        m.suspended,
    ensures
        m.present() == Some((m, Action::WaitForEvents)),
{
}

/// A resize event with drawable area, arriving between ticks, suspended
/// or not, rebuilds the swapchain exactly once: after the device-idle
/// wait the old framebuffers, the pipeline where it holds the viewport,
/// the image views and the swapchain are destroyed in this order, then
/// built again in the opposite order. The rebuild ends between ticks, not
/// suspended, with nothing in flight, and the next tick begins with the
/// fence wait of the slot that was current before.
pub proof fn lemma_resize_rebuilds_and_resumes(
    m: Model,
    resize_width: i32,
    resize_height: i32,
    image_count: u32,
    width: u32,
    height: u32,
)
    requires
        m.inv(),
        m.phase is Ready,
        !zero_area(resize_width, resize_height),
    ensures
        m.handle_resize(resize_width, resize_height) matches Some((begun, first)) && {
            let rebuilt = Model {
                suspended: false,
                image_count,
                width,
                height,
                in_flight: Seq::new(m.frames, |k: int| false),
                ..m
            };
            &&& first == Action::WaitDeviceIdle
            &&& run(begun, rebuild_events(m.static_viewport, image_count, width, height)) == (
                rebuilt,
                rebuild_actions(m.static_viewport, image_count, width, height),
            )
            &&& rebuilt.present() == Some(
                (
                    rebuilt.to(Phase::AwaitFence),
                    Action::WaitFence { slot: m.current_frame as usize },
                ),
            )
        },
{
    let begun = Model { suspended: false, phase: Phase::Draining, ..m };
    lemma_rebuild(begun, image_count, width, height);
}

/// A swapchain rebuild, from the device-idle wait on. See
/// [`lemma_resize_rebuilds_and_resumes`]; an acquire that finds the
/// swapchain out of date leads to the same state.
pub proof fn lemma_rebuild(begun: Model, image_count: u32, width: u32, height: u32)
    requires
        begun.inv(),
        begun.phase is Draining,
    ensures
        run(begun, rebuild_events(begun.static_viewport, image_count, width, height)) == (
            Model {
                phase: Phase::Ready,
                image_count,
                width,
                height,
                in_flight: Seq::new(begun.frames, |k: int| false),
                ..begun
            },
            rebuild_actions(begun.static_viewport, image_count, width, height),
        ),
{
    if begun.static_viewport {
        lemma_rebuild_with_pipeline(begun, image_count, width, height);
    } else {
        lemma_rebuild_without_pipeline(begun, image_count, width, height);
    }
}

/// [`lemma_rebuild`] where the pipeline holds the viewport.
proof fn lemma_rebuild_with_pipeline(begun: Model, image_count: u32, width: u32, height: u32)
    requires
        begun.inv(),
        begun.phase is Draining,
        begun.static_viewport,
    ensures
        run(begun, rebuild_events(true, image_count, width, height)) == (
            Model {
                phase: Phase::Ready,
                image_count,
                width,
                height,
                in_flight: Seq::new(begun.frames, |k: int| false),
                ..begun
            },
            rebuild_actions(true, image_count, width, height),
        ),
{
    let events = rebuild_events(true, image_count, width, height);
    let actions = rebuild_actions(true, image_count, width, height);
    let d = begun.drained();
    let c = Model { image_count, width, height, ..d };
    assert(actions.take(0) =~= Seq::<Action>::empty());
    lemma_run_extends(begun, events, actions, 0, begun, d.to(Phase::DestroyingFramebuffers));
    lemma_run_extends(
        begun,
        events,
        actions,
        1,
        d.to(Phase::DestroyingFramebuffers),
        d.to(Phase::DestroyingPipeline),
    );
    lemma_run_extends(
        begun,
        events,
        actions,
        2,
        d.to(Phase::DestroyingPipeline),
        d.to(Phase::DestroyingImageViews),
    );
    lemma_run_extends(
        begun,
        events,
        actions,
        3,
        d.to(Phase::DestroyingImageViews),
        d.to(Phase::DestroyingSwapchain),
    );
    lemma_run_extends(
        begun,
        events,
        actions,
        4,
        d.to(Phase::DestroyingSwapchain),
        d.to(Phase::CreatingSwapchain),
    );
    lemma_run_extends(
        begun,
        events,
        actions,
        5,
        d.to(Phase::CreatingSwapchain),
        c.to(Phase::CreatingImageViews),
    );
    lemma_run_extends(
        begun,
        events,
        actions,
        6,
        c.to(Phase::CreatingImageViews),
        c.to(Phase::CreatingPipeline),
    );
    lemma_run_extends(
        begun,
        events,
        actions,
        7,
        c.to(Phase::CreatingPipeline),
        c.to(Phase::CreatingFramebuffers),
    );
    lemma_run_extends(begun, events, actions, 8, c.to(Phase::CreatingFramebuffers), c.to(Phase::Ready));
}

/// [`lemma_rebuild`] where the pipeline does not hold the viewport.
proof fn lemma_rebuild_without_pipeline(begun: Model, image_count: u32, width: u32, height: u32)
    requires
        begun.inv(),
        begun.phase is Draining,
        !begun.static_viewport,
    ensures
        run(begun, rebuild_events(false, image_count, width, height)) == (
            Model {
                phase: Phase::Ready,
                image_count,
                width,
                height,
                in_flight: Seq::new(begun.frames, |k: int| false),
                ..begun
            },
            rebuild_actions(false, image_count, width, height),
        ),
{
    let events = rebuild_events(false, image_count, width, height);
    let actions = rebuild_actions(false, image_count, width, height);
    let d = begun.drained();
    let c = Model { image_count, width, height, ..d };
    assert(actions.take(0) =~= Seq::<Action>::empty());
    lemma_run_extends(begun, events, actions, 0, begun, d.to(Phase::DestroyingFramebuffers));
    lemma_run_extends(
        begun,
        events,
        actions,
        1,
        d.to(Phase::DestroyingFramebuffers),
        d.to(Phase::DestroyingImageViews),
    );
    lemma_run_extends(
        begun,
        events,
        actions,
        2,
        d.to(Phase::DestroyingImageViews),
        d.to(Phase::DestroyingSwapchain),
    );
    lemma_run_extends(
        begun,
        events,
        actions,
        3,
        d.to(Phase::DestroyingSwapchain),
        d.to(Phase::CreatingSwapchain),
    );
    lemma_run_extends(
        begun,
        events,
        actions,
        4,
        d.to(Phase::CreatingSwapchain),
        c.to(Phase::CreatingImageViews),
    );
    lemma_run_extends(
        begun,
        events,
        actions,
        5,
        c.to(Phase::CreatingImageViews),
        c.to(Phase::CreatingFramebuffers),
    );
    lemma_run_extends(begun, events, actions, 6, c.to(Phase::CreatingFramebuffers), c.to(Phase::Ready));
}

/// One more event of a run whose actions are known in advance: where
/// the first `n` events have led to `before` with the first `n` actions,
/// and event `n` leads from there to `next` with action `n`, the first
/// `n + 1` events lead to `next` with the first `n + 1` actions.
proof fn lemma_run_extends(
    start: Model,
    events: Seq<Event>,
    actions: Seq<Action>,
    n: int,
    before: Model,
    next: Model,
)
    requires
        0 <= n < events.len(),
        n < actions.len(),
        run(start, events.take(n)) == (before, actions.take(n)),
        before.step(events[n]) == Some((next, actions[n])),
    ensures
        run(start, events.take(n + 1)) == (next, actions.take(n + 1)),
{
    lemma_run_unfolds(start, events, n);
}

/// A run over the first `n + 1` events is the run over the first `n`,
/// followed by one transition.
pub proof fn lemma_run_unfolds(start: Model, events: Seq<Event>, n: int)
    requires
        0 <= n < events.len(),
    ensures
        run(start, events.take(n + 1)) == {
            let (before, actions) = run(start, events.take(n));
            match before.step(events[n]) {
                Some((next, action)) => (next, actions.push(action)),
                None => (before, actions),
            }
        },
{
    assert(events.take(n + 1).drop_last() =~= events.take(n));
}

/// Nothing is destroyed before the device has been found idle. A
/// destroying action is asked for only in answer to the end of the
/// device-idle wait itself, or in a phase that began with that answer and
/// in which nothing has been submitted since; either way no slot is in
/// flight when it is asked for. An acquire that finds the swapchain out
/// of date asks for the device-idle wait and for nothing else, and while
/// that wait is outstanding no other event is accepted.
pub proof fn lemma_destroy_only_when_idle(m: Model, event: Event)
    requires
        m.inv(),
    ensures
        m.step(event) matches Some((next, action)) ==> {
            &&& (destroys(action) ==> {
                &&& event is DeviceIdle || quiescent(m.phase)
                &&& quiescent(next.phase)
                &&& forall|k: int| 0 <= k < next.frames ==> !#[trigger] next.in_flight[k]
            })
            &&& (quiescent(next.phase) && !quiescent(m.phase) ==> event is DeviceIdle)
            &&& (quiescent(m.phase) ==> !(action is Submit))
            &&& (m.phase is AwaitAcquire && reports_out_of_date(event) ==> action
                == Action::WaitDeviceIdle && next == m.to(Phase::Draining))
        },
        m.phase is Draining || m.phase is Closing ==> (m.step(event) is Some <==> event
            is DeviceIdle),
{
}

/// The resource that an action destroys, where it destroys one.
pub open spec fn destroyed_by(action: Action) -> Option<Resource> {
    match action {
        Action::DestroyFramebuffers => Some(Resource::Framebuffers),
        Action::DestroyPipeline => Some(Resource::Pipeline),
        Action::DestroyImageViews => Some(Resource::ImageViews),
        Action::DestroySwapchain => Some(Resource::Swapchain),
        _ => None,
    }
}

/// The resource that an action creates, where it creates one.
pub open spec fn created_by(action: Action) -> Option<Resource> {
    match action {
        Action::CreateSwapchain => Some(Resource::Swapchain),
        Action::CreateImageViews { .. } => Some(Resource::ImageViews),
        Action::CreatePipeline { .. } => Some(Resource::Pipeline),
        Action::CreateFramebuffers { .. } => Some(Resource::Framebuffers),
        _ => None,
    }
}

/// A swapchain rebuild keeps to the order in which resources come and
/// go. It destroys exactly the resources that hang on the swapchain, each
/// once and later-created ones first; only then does it create them
/// again, each once and in the order of creation.
pub proof fn lemma_rebuild_keeps_the_order(
    static_viewport: bool,
    image_count: u32,
    width: u32,
    height: u32,
)
    ensures
        ({
            let actions = rebuild_actions(static_viewport, image_count, width, height);
            &&& forall|i: int, j: int|
                0 <= i < j < actions.len() ==> match (
                    #[trigger] destroyed_by(actions[i]),
                    #[trigger] destroyed_by(actions[j]),
                ) {
                    (Some(first), Some(second)) => creation_rank(first) > creation_rank(second),
                    _ => true,
                }
            &&& forall|i: int, j: int|
                0 <= i < j < actions.len() ==> match (
                    #[trigger] created_by(actions[i]),
                    #[trigger] created_by(actions[j]),
                ) {
                    (Some(first), Some(second)) => creation_rank(first) < creation_rank(second),
                    _ => true,
                }
            &&& forall|i: int, j: int|
                0 <= i < actions.len() && 0 <= j < actions.len() && (#[trigger] destroyed_by(
                    actions[i],
                )) is Some && (#[trigger] created_by(actions[j])) is Some ==> i < j
            &&& forall|resource: Resource|
                #[trigger] rebuilt(resource, static_viewport) <==> exists|i: int|
                    0 <= i < actions.len() && #[trigger] destroyed_by(actions[i]) == Some(resource)
            &&& forall|resource: Resource|
                #[trigger] rebuilt(resource, static_viewport) <==> exists|i: int|
                    0 <= i < actions.len() && #[trigger] created_by(actions[i]) == Some(resource)
        }),
{
    // where each rebuilt resource is destroyed and where it is created
    let actions = rebuild_actions(static_viewport, image_count, width, height);
    if static_viewport {
        assert(destroyed_by(actions[0]) == Some(Resource::Framebuffers));
        assert(destroyed_by(actions[1]) == Some(Resource::Pipeline));
        assert(destroyed_by(actions[2]) == Some(Resource::ImageViews));
        assert(destroyed_by(actions[3]) == Some(Resource::Swapchain));
        assert(created_by(actions[4]) == Some(Resource::Swapchain));
        assert(created_by(actions[5]) == Some(Resource::ImageViews));
        assert(created_by(actions[6]) == Some(Resource::Pipeline));
        assert(created_by(actions[7]) == Some(Resource::Framebuffers));
    } else {
        assert(destroyed_by(actions[0]) == Some(Resource::Framebuffers));
        assert(destroyed_by(actions[1]) == Some(Resource::ImageViews));
        assert(destroyed_by(actions[2]) == Some(Resource::Swapchain));
        assert(created_by(actions[3]) == Some(Resource::Swapchain));
        assert(created_by(actions[4]) == Some(Resource::ImageViews));
        assert(created_by(actions[5]) == Some(Resource::Framebuffers));
    }
}

/// Every way out leads through the teardown. Wherever the orchestrator
/// stands when the shutdown is asked for, unless it is shutting down
/// already, the shutdown begins with the device-idle wait, gives up what
/// was outstanding, asks for everything to be destroyed only when the
/// device has been found idle, and ends with nothing in flight.
pub proof fn lemma_shutdown_from_anywhere(m: Model)
    requires
        m.inv(),
        !shutting_down(m.phase),
    ensures
        m.shutdown() matches Some((begun, first)) && {
            &&& first == Action::WaitDeviceIdle
            &&& begun == Model { suspended: false, phase: Phase::Closing, ..m }
            &&& forall|event: Event| #[trigger] begun.step(event) is Some <==> event is DeviceIdle
            &&& run(begun, seq![Event::DeviceIdle, Event::Completed]) == (
                Model { phase: Phase::Closed, ..begun.drained() },
                seq![Action::DestroyAll, Action::Idle],
            )
        },
{
    let begun = Model { suspended: false, phase: Phase::Closing, ..m };
    let events = seq![Event::DeviceIdle, Event::Completed];
    let actions = seq![Action::DestroyAll, Action::Idle];
    let torn = begun.drained().to(Phase::TearingDown);
    assert(events.take(0) =~= Seq::<Event>::empty());
    assert(actions.take(0) =~= Seq::<Action>::empty());
    lemma_run_extends(begun, events, actions, 0, begun, torn);
    lemma_run_extends(begun, events, actions, 1, torn, torn.to(Phase::Closed));
    assert(events.take(2) =~= events);
    assert(actions.take(2) =~= actions);
}

} // verus!
