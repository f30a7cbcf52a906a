//! The render thread's frame cycle as a state machine: acquire, draw and
//! present while the swapchain is live; wait for the frames in flight and
//! rebuild it when the surface no longer fits. The machine decides; its
//! caller carries out each action on the GPU and reports the outcome.

use vstd::prelude::*;
use crate::config::EngineConfig;
use crate::surface::{
    lemma_first_marked, spec_choose_extent, spec_first_marked, SurfaceReport, SurfaceReportView,
    SwapchainProperties, swapchain_properties,
};

verus! {

/// What ends the render thread.
#[derive(Clone, Copy, Debug, PartialEq, Eq, Structural)]
pub enum RenderError {
    /// The surface was lost, or the swapchain could not be rebuilt for it.
    SurfaceLost,
    /// No image could be acquired, for a reason other than an outdated
    /// swapchain.
    AcquireFailed,
    /// A fence stayed unsignaled through the tolerated number of waits of
    /// `waited_nanos` each.
    DeviceTimeout { waited_nanos: u64 },
    /// The generation counter has no successor.
    GenerationExhausted,
}

/// The synchronisation state of one frame slot.
#[derive(Clone, Copy, Debug, PartialEq, Eq, Structural)]
pub struct FrameSlot {
    /// Work was submitted for the slot and its fence has not been seen
    /// signaled.
    pub in_flight: bool,
    /// The swapchain generation the submitted work refers to.
    pub generation: u64,
}

/// Where the frame cycle stands.
#[derive(Clone, Copy, Debug, PartialEq, Eq, Structural)]
pub enum FramePhase {
    /// Between frames, with a usable swapchain.
    Live,
    /// Waiting for the current slot's fence before its reuse.
    WaitingFence,
    /// Waiting for `slot`'s fence before the swapchain is destroyed.
    WaitingIdle { slot: usize },
    /// An image was requested.
    AcquirePending,
    /// The frame for `image_index` is being drawn and presented.
    Presenting { image_index: u32 },
    /// The surface is being queried for a new swapchain.
    Recreating,
    /// A swapchain with `properties` is being built.
    Building { properties: SwapchainProperties },
    /// A fatal error was reported; nothing further happens.
    Failed,
}

/// How a fence wait ended.
#[derive(Clone, Copy, Debug, PartialEq, Eq, Structural)]
pub enum FenceOutcome {
    Signaled,
    TimedOut,
}

/// How an image acquisition ended.
#[derive(Clone, Copy, Debug, PartialEq, Eq, Structural)]
pub enum AcquireOutcome {
    Image { index: u32, suboptimal: bool },
    OutOfDate,
    Failed,
}

/// How submission and presentation ended.
#[derive(Clone, Copy, Debug, PartialEq, Eq, Structural)]
pub enum PresentOutcome {
    Presented,
    Suboptimal,
    OutOfDate,
    Failed,
}

/// How the surface query ended.
pub enum SurfaceQuery {
    Report(SurfaceReport),
    Lost,
}

impl View for SurfaceQuery {
    type V = Option<SurfaceReportView>;

    open spec fn view(&self) -> Option<SurfaceReportView> {
        match self {
            SurfaceQuery::Report(report) => Some(report@),
            SurfaceQuery::Lost => None,
        }
    }
}

/// How building the swapchain and its per-image resources ended.
#[derive(Clone, Copy, Debug, PartialEq, Eq, Structural)]
pub enum BuildOutcome {
    Built { image_count: u32 },
    Failed,
}

/// What the caller does next.
#[derive(Clone, Copy, Debug, PartialEq, Eq, Structural)]
pub enum RenderAction {
    /// Wait for `slot`'s fence, at most `timeout_nanos`, and report with
    /// `on_fence`.
    WaitForFence { slot: usize, timeout_nanos: u64 },
    /// Acquire the next image, signaling `slot`'s image-acquired
    /// semaphore, and report with `on_acquire`.
    AcquireImage { slot: usize },
    /// Destroy the swapchain's dependents, query the surface and report
    /// with `on_surface_queried`.
    QuerySurface,
    /// Build the swapchain, its image views and framebuffers, and report
    /// with `on_swapchain_built`.
    BuildSwapchain { properties: SwapchainProperties },
    /// Record, submit and present the frame, and report with `on_present`.
    Draw { image_index: u32, slot: usize },
    /// The iteration is over, with a frame presented or skipped.
    FrameDone,
    /// Tear down and leave the loop.
    Fatal { error: RenderError },
}

/// For each slot, whether it is in flight.
pub open spec fn in_flight_marks(slots: Seq<FrameSlot>) -> Seq<bool> {
    Seq::new(slots.len(), |i: int| slots[i].in_flight)
}

/// The number of slots in flight.
pub open spec fn in_flight_count(slots: Seq<FrameSlot>) -> nat
    decreases slots.len(),
{
    if slots.len() == 0 {
        0
    } else {
        in_flight_count(slots.drop_last()) + if slots.last().in_flight {
            1nat
        } else {
            0nat
        }
    }
}

/// The state of the frame cycle, as a value.
pub struct RendererState {
    /// Counts the swapchains built so far.
    pub generation: u64,
    pub properties: SwapchainProperties,
    /// The images of the live swapchain.
    pub image_count: u32,
    /// The framebuffers built for them.
    pub framebuffer_count: u32,
    /// The swapchain is to be rebuilt before the next frame.
    pub recreate_pending: bool,
    pub phase: FramePhase,
    pub slots: Seq<FrameSlot>,
    /// The slot the next frame uses.
    pub current_slot: usize,
    /// Fence waits that timed out since a fence was last seen signaled.
    pub consecutive_timeouts: u32,
    pub config: EngineConfig,
}

impl RendererState {
    /// What holds of the state whatever the phase: there are exactly as
    /// many slots as frames may be in flight, one framebuffer per image,
    /// and every frame in flight refers to the live generation.
    pub open spec fn inv(self) -> bool {
        &&& self.config.well_formed()
        &&& self.slots.len() == self.config.max_frames_in_flight
        &&& self.current_slot < self.slots.len()
        &&& self.framebuffer_count == self.image_count
        &&& self.consecutive_timeouts < self.config.max_consecutive_timeouts
        &&& forall|i: int|
            0 <= i < self.slots.len() && (#[trigger] self.slots[i]).in_flight
                ==> self.slots[i].generation == self.generation
    }

    /// What the phase says of the slots: a fence is waited for only on a
    /// slot in flight, a frame is drawn only on a free slot, and the
    /// swapchain is rebuilt only with no frame in flight.
    pub open spec fn phase_ok(self) -> bool {
        match self.phase {
            FramePhase::Live => true,
            FramePhase::WaitingFence => self.slots[self.current_slot as int].in_flight,
            FramePhase::WaitingIdle { slot } => slot < self.slots.len()
                && self.slots[slot as int].in_flight,
            FramePhase::AcquirePending => !self.slots[self.current_slot as int].in_flight,
            FramePhase::Presenting { image_index } => image_index < self.image_count
                && !self.slots[self.current_slot as int].in_flight,
            FramePhase::Recreating => self.all_idle(),
            FramePhase::Building { .. } => self.all_idle(),
            FramePhase::Failed => true,
        }
    }

    /// What holds of the state between any two calls.
    pub open spec fn wf(self) -> bool {
        self.inv() && self.phase_ok()
    }

    /// No frame is in flight.
    pub open spec fn all_idle(self) -> bool {
        forall|i: int| 0 <= i < self.slots.len() ==> !(#[trigger] self.slots[i]).in_flight
    }

    /// The slot after the current one, round-robin.
    pub open spec fn next_slot(self) -> usize {
        if self.current_slot + 1 >= self.slots.len() {
            0
        } else {
            (self.current_slot + 1) as usize
        }
    }

    /// The way to a rebuild: wait for the first frame still in flight, or,
    /// with none left, start querying the surface.
    pub open spec fn toward_recreate(self) -> (RendererState, RenderAction) {
        match spec_first_marked(in_flight_marks(self.slots)) {
            Some(slot) => (
                RendererState { phase: FramePhase::WaitingIdle { slot: slot as usize }, ..self },
                RenderAction::WaitForFence {
                    slot: slot as usize,
                    timeout_nanos: self.config.fence_timeout_nanos,
                },
            ),
            None => (
                RendererState { phase: FramePhase::Recreating, ..self },
                RenderAction::QuerySurface,
            ),
        }
    }

    /// A frame iteration starts. A resize notification, like a trigger
    /// left by an earlier frame, leads to a rebuild and no frame;
    /// otherwise the current slot's fence is waited for if its frame is
    /// still in flight, and then an image is acquired.
    pub open spec fn render_frame(self, window_resized: bool) -> (RendererState, RenderAction) {
        let pending = self.recreate_pending || window_resized;
        let noted = RendererState { recreate_pending: pending, ..self };
        if pending {
            noted.toward_recreate()
        } else if self.slots[self.current_slot as int].in_flight {
            (
                RendererState { phase: FramePhase::WaitingFence, ..noted },
                RenderAction::WaitForFence {
                    slot: self.current_slot,
                    timeout_nanos: self.config.fence_timeout_nanos,
                },
            )
        } else {
            (
                RendererState { phase: FramePhase::AcquirePending, ..noted },
                RenderAction::AcquireImage { slot: self.current_slot },
            )
        }
    }

    /// The slot whose fence is being waited for.
    pub open spec fn awaited_slot(self) -> usize {
        match self.phase {
            FramePhase::WaitingIdle { slot } => slot,
            _ => self.current_slot,
        }
    }

    /// A fence wait ended. A signaled fence frees its slot and the cycle
    /// goes on; a timeout is waited out again until the tolerated number
    /// of consecutive timeouts is reached, which is fatal.
    pub open spec fn on_fence(self, outcome: FenceOutcome) -> (RendererState, RenderAction) {
        let slot = self.awaited_slot();
        match outcome {
            FenceOutcome::Signaled => {
                let freed = RendererState {
                    slots: self.slots.update(
                        slot as int,
                        FrameSlot { in_flight: false, ..self.slots[slot as int] },
                    ),
                    consecutive_timeouts: 0,
                    ..self
                };
                if self.phase is WaitingIdle {
                    freed.toward_recreate()
                } else {
                    (
                        RendererState { phase: FramePhase::AcquirePending, ..freed },
                        RenderAction::AcquireImage { slot: self.current_slot },
                    )
                }
            },
            FenceOutcome::TimedOut => {
                if self.consecutive_timeouts + 1 >= self.config.max_consecutive_timeouts {
                    (
                        RendererState { phase: FramePhase::Failed, ..self },
                        RenderAction::Fatal {
                            error: RenderError::DeviceTimeout {
                                waited_nanos: self.config.fence_timeout_nanos,
                            },
                        },
                    )
                } else {
                    (
                        RendererState {
                            consecutive_timeouts: (self.consecutive_timeouts + 1) as u32,
                            ..self
                        },
                        RenderAction::WaitForFence {
                            slot,
                            timeout_nanos: self.config.fence_timeout_nanos,
                        },
                    )
                }
            },
        }
    }

    /// The acquisition ended. An image is drawn to, and a suboptimal one
    /// leaves the rebuild trigger set for the next iteration; an outdated
    /// swapchain is rebuilt at once and the frame is skipped; any other
    /// failure is fatal.
    pub open spec fn on_acquire(self, outcome: AcquireOutcome) -> (RendererState, RenderAction) {
        match outcome {
            AcquireOutcome::Image { index, suboptimal } => {
                if index < self.image_count {
                    (
                        RendererState {
                            recreate_pending: self.recreate_pending || suboptimal,
                            phase: FramePhase::Presenting { image_index: index },
                            ..self
                        },
                        RenderAction::Draw { image_index: index, slot: self.current_slot },
                    )
                } else {
                    (
                        RendererState { phase: FramePhase::Failed, ..self },
                        RenderAction::Fatal { error: RenderError::AcquireFailed },
                    )
                }
            },
            AcquireOutcome::OutOfDate => {
                RendererState { recreate_pending: true, ..self }.toward_recreate()
            },
            AcquireOutcome::Failed => (
                RendererState { phase: FramePhase::Failed, ..self },
                RenderAction::Fatal { error: RenderError::AcquireFailed },
            ),
        }
    }

    /// Submission and presentation ended. Unless they failed, the frame
    /// is in flight on the current slot and the next slot becomes
    /// current; a suboptimal or outdated result also sets the rebuild
    /// trigger. A failure leaves the slot free. The iteration is over
    /// either way.
    pub open spec fn on_present(self, outcome: PresentOutcome) -> (RendererState, RenderAction) {
        match outcome {
            PresentOutcome::Failed => (
                RendererState { phase: FramePhase::Live, ..self },
                RenderAction::FrameDone,
            ),
            _ => (
                RendererState {
                    slots: self.slots.update(
                        self.current_slot as int,
                        FrameSlot { in_flight: true, generation: self.generation },
                    ),
                    current_slot: self.next_slot(),
                    recreate_pending: self.recreate_pending || !(outcome is Presented),
                    phase: FramePhase::Live,
                    ..self
                },
                RenderAction::FrameDone,
            ),
        }
    }

    /// The surface was queried. From a report the new swapchain's
    /// settings are chosen; a lost surface is fatal.
    pub open spec fn on_surface_queried(self, query: Option<SurfaceReportView>) -> (
        RendererState,
        RenderAction,
    ) {
        match query {
            Some(report) => {
                let properties = report.chosen_properties(self.config.preferred_image_count);
                (
                    RendererState { phase: FramePhase::Building { properties }, ..self },
                    RenderAction::BuildSwapchain { properties },
                )
            },
            None => (
                RendererState { phase: FramePhase::Failed, ..self },
                RenderAction::Fatal { error: RenderError::SurfaceLost },
            ),
        }
    }

    /// The state with a newly built swapchain of `image_count` images:
    /// the next generation, one framebuffer per image, no rebuild
    /// pending.
    pub open spec fn rebuilt(self, properties: SwapchainProperties, image_count: u32) -> RendererState {
        RendererState {
            generation: (self.generation + 1) as u64,
            properties,
            image_count,
            framebuffer_count: image_count,
            recreate_pending: false,
            phase: FramePhase::Live,
            ..self
        }
    }

    /// Building ended. A built swapchain starts the next generation and
    /// the iteration is over without a frame; a failure is fatal, and so
    /// is a generation counter at its greatest value.
    pub open spec fn on_swapchain_built(self, outcome: BuildOutcome) -> (
        RendererState,
        RenderAction,
    ) {
        match (outcome, self.phase) {
            (BuildOutcome::Built { image_count }, FramePhase::Building { properties }) => {
                if self.generation < u64::MAX {
                    (self.rebuilt(properties, image_count), RenderAction::FrameDone)
                } else {
                    (
                        RendererState { phase: FramePhase::Failed, ..self },
                        RenderAction::Fatal { error: RenderError::GenerationExhausted },
                    )
                }
            },
            _ => (
                RendererState { phase: FramePhase::Failed, ..self },
                RenderAction::Fatal { error: RenderError::SurfaceLost },
            ),
        }
    }

    /// The state after `builds` swapchains were built one after another.
    pub open spec fn after_rebuilds(self, builds: Seq<(SwapchainProperties, u32)>) -> RendererState
        decreases builds.len(),
    {
        if builds.len() == 0 {
            self
        } else {
            self.after_rebuilds(builds.drop_last()).rebuilt(builds.last().0, builds.last().1)
        }
    }
}

/// No more slots are in flight than there are slots.
pub proof fn lemma_in_flight_count_bounded(slots: Seq<FrameSlot>)
    ensures
        in_flight_count(slots) <= slots.len(),
    decreases slots.len(),
{
    if slots.len() > 0 {
        lemma_in_flight_count_bounded(slots.drop_last());
    }
}

/// Frame budget: in a well-formed state no more frames are in flight than
/// the configuration allows.
pub proof fn lemma_frame_budget(state: RendererState)
    requires
        state.wf(),
    ensures
        in_flight_count(state.slots) <= state.config.max_frames_in_flight,
{
    lemma_in_flight_count_bounded(state.slots);
}

/// The first marked slot is the one found by scanning from the front.
proof fn lemma_first_in_flight(slots: Seq<FrameSlot>, found: int)
    requires
        0 <= found <= slots.len(),
        forall|i: int| 0 <= i < found ==> !(#[trigger] slots[i]).in_flight,
        found < slots.len() ==> slots[found].in_flight,
    ensures
        found < slots.len() ==> spec_first_marked(in_flight_marks(slots)) == Some(found),
        found == slots.len() ==> spec_first_marked(in_flight_marks(slots)) is None,
{
    let marks = in_flight_marks(slots);
    lemma_first_marked(marks);
    match spec_first_marked(marks) {
        Some(index) => {
            assert(marks[index] == slots[index].in_flight);
            if found < slots.len() {
                assert(marks[found] == slots[found].in_flight);
                if found < index {
                    assert(!marks[found]);
                }
            }
        },
        None => {
            if found < slots.len() {
                assert(marks[found] == slots[found].in_flight);
            }
        },
    }
}

/// Turning toward a rebuild keeps the state well formed and changes
/// nothing but the phase.
pub proof fn lemma_toward_recreate(state: RendererState)
    requires
        state.inv(),
    ensures
        state.toward_recreate().0.wf(),
        state.toward_recreate().0 == (RendererState {
            phase: state.toward_recreate().0.phase,
            ..state
        }),
        state.toward_recreate().1 is QuerySurface <==> state.all_idle(),
        state.toward_recreate().1 is QuerySurface || state.toward_recreate().1 is WaitForFence,
{
    let marks = in_flight_marks(state.slots);
    lemma_first_marked(marks);
    match spec_first_marked(marks) {
        Some(slot) => {
            assert(marks[slot] == state.slots[slot].in_flight);
        },
        None => {
            assert forall|i: int| 0 <= i < state.slots.len() implies !(
            #[trigger] state.slots[i]).in_flight by {
                assert(marks[i] == state.slots[i].in_flight);
            }
        },
    }
}

/// Starting a frame keeps the state well formed, the generation and the
/// slots; an image is acquired only where nothing asks for a rebuild.
pub proof fn lemma_render_frame(state: RendererState, window_resized: bool)
    requires
        state.wf(),
        state.phase is Live,
    ensures
        state.render_frame(window_resized).0.wf(),
        state.render_frame(window_resized).0.generation == state.generation,
        state.render_frame(window_resized).0.slots == state.slots,
        window_resized ==> state.render_frame(window_resized).0.recreate_pending,
        state.render_frame(window_resized).1 is AcquireImage ==> !window_resized
            && !state.recreate_pending,
{
    let noted = RendererState {
        recreate_pending: state.recreate_pending || window_resized,
        ..state
    };
    lemma_toward_recreate(noted);
}

/// A fence outcome keeps the state well formed and the generation.
pub proof fn lemma_on_fence(state: RendererState, outcome: FenceOutcome)
    requires
        state.wf(),
        state.phase is WaitingFence || state.phase is WaitingIdle,
    ensures
        state.on_fence(outcome).0.wf(),
        state.on_fence(outcome).0.generation == state.generation,
        outcome is Signaled ==> in_flight_count(state.on_fence(outcome).0.slots) + 1
            == in_flight_count(state.slots),
        !(state.on_fence(outcome).1 is Draw),
{
    let slot = state.awaited_slot();
    match outcome {
        FenceOutcome::Signaled => {
            let freed = RendererState {
                slots: state.slots.update(
                    slot as int,
                    FrameSlot { in_flight: false, ..state.slots[slot as int] },
                ),
                consecutive_timeouts: 0,
                ..state
            };
            assert(freed.inv());
            lemma_toward_recreate(freed);
            lemma_count_after_update(
                state.slots,
                slot as int,
                FrameSlot { in_flight: false, ..state.slots[slot as int] },
            );
        },
        FenceOutcome::TimedOut => {},
    }
}

/// Replacing one slot changes the count of slots in flight by that slot's
/// contribution.
pub proof fn lemma_count_after_update(slots: Seq<FrameSlot>, index: int, slot: FrameSlot)
    requires
        0 <= index < slots.len(),
    ensures
        in_flight_count(slots.update(index, slot)) + (if slots[index].in_flight {
            1nat
        } else {
            0nat
        }) == in_flight_count(slots) + (if slot.in_flight {
            1nat
        } else {
            0nat
        }),
    decreases slots.len(),
{
    let updated = slots.update(index, slot);
    if index == slots.len() - 1 {
        assert(updated.drop_last() =~= slots.drop_last());
    } else {
        assert(updated.drop_last() =~= slots.drop_last().update(index, slot));
        lemma_count_after_update(slots.drop_last(), index, slot);
    }
}

/// An acquisition outcome keeps the state well formed and the generation,
/// and a frame is drawn only on a free slot.
pub proof fn lemma_on_acquire(state: RendererState, outcome: AcquireOutcome)
    requires
        state.wf(),
        state.phase is AcquirePending,
    ensures
        state.on_acquire(outcome).0.wf(),
        state.on_acquire(outcome).0.generation == state.generation,
        state.on_acquire(outcome).0.slots == state.slots,
        state.on_acquire(outcome).1 is Draw ==> !state.slots[state.current_slot as int].in_flight,
        outcome is OutOfDate ==> !(state.on_acquire(outcome).1 is Draw),
{
    lemma_toward_recreate(RendererState { recreate_pending: true, ..state });
}

/// A presentation outcome keeps the state well formed and the
/// generation, and stays within the frame budget.
pub proof fn lemma_on_present(state: RendererState, outcome: PresentOutcome)
    requires
        state.wf(),
        state.phase is Presenting,
    ensures
        state.on_present(outcome).0.wf(),
        state.on_present(outcome).0.generation == state.generation,
        state.on_present(outcome).0.phase is Live,
        in_flight_count(state.on_present(outcome).0.slots) <= state.config.max_frames_in_flight,
        !(outcome is Presented) && !(outcome is Failed) ==> state.on_present(
            outcome,
        ).0.recreate_pending,
{
    lemma_in_flight_count_bounded(state.on_present(outcome).0.slots);
}

/// The outcome of the surface query keeps the state well formed and the
/// generation.
pub proof fn lemma_on_surface_queried(state: RendererState, query: Option<SurfaceReportView>)
    requires
        state.wf(),
        state.phase is Recreating,
    ensures
        state.on_surface_queried(query).0.wf(),
        state.on_surface_queried(query).0.generation == state.generation,
        query is None <==> state.on_surface_queried(query).1 == (RenderAction::Fatal {
            error: RenderError::SurfaceLost,
        }),
{
}

/// The outcome of a build keeps the state well formed, and a built
/// swapchain is the next generation.
pub proof fn lemma_on_swapchain_built(state: RendererState, outcome: BuildOutcome)
    requires
        state.wf(),
        state.phase is Building,
    ensures
        state.on_swapchain_built(outcome).0.wf(),
        state.on_swapchain_built(outcome).1 is FrameDone <==> outcome is Built && state.generation
            < u64::MAX,
        state.on_swapchain_built(outcome).1 is FrameDone ==> state.on_swapchain_built(
            outcome,
        ).0.generation == state.generation + 1 && !state.on_swapchain_built(
            outcome,
        ).0.recreate_pending,
        !(state.on_swapchain_built(outcome).1 is FrameDone) ==> state.on_swapchain_built(
            outcome,
        ).0.generation == state.generation,
{
}

/// Generation monotonicity: after any number of rebuilds the generation
/// is the initial one plus that number, as long as the counter can hold
/// it; and the frames in flight, untouched by rebuilding, are the same.
pub proof fn lemma_generation_counts_rebuilds(
    state: RendererState,
    builds: Seq<(SwapchainProperties, u32)>,
)
    requires
        state.generation + builds.len() <= u64::MAX,
    ensures
        state.after_rebuilds(builds).generation == state.generation + builds.len(),
        state.after_rebuilds(builds).slots == state.slots,
        builds.len() > 0 ==> state.after_rebuilds(builds).generation > state.generation,
    decreases builds.len(),
{
    if builds.len() > 0 {
        lemma_generation_counts_rebuilds(state, builds.drop_last());
    }
}

/// A resize notification never leads to a frame: the iteration turns
/// toward a rebuild, waiting first for a frame in flight if there is one.
pub proof fn lemma_resize_turns_toward_rebuild(state: RendererState)
    requires
        state.wf(),
        state.phase is Live,
    ensures
        state.render_frame(true).0.wf(),
        state.render_frame(true).0.recreate_pending,
        state.all_idle() ==> state.render_frame(true).1 == RenderAction::QuerySurface
            && state.render_frame(true).0.phase is Recreating,
        !state.all_idle() ==> state.render_frame(true).1 is WaitForFence && state.render_frame(
            true,
        ).0.phase is WaitingIdle,
{
    lemma_toward_recreate(RendererState { recreate_pending: true, ..state });
    lemma_render_frame(state, true);
}

/// While the rebuild waits for frames in flight, every signaled fence
/// leaves one frame less in flight, and with none left the surface is
/// queried.
pub proof fn lemma_signaled_fence_drains(state: RendererState)
    requires
        state.wf(),
        state.phase is WaitingIdle,
    ensures
        state.on_fence(FenceOutcome::Signaled).0.wf(),
        in_flight_count(state.on_fence(FenceOutcome::Signaled).0.slots) + 1 == in_flight_count(
            state.slots,
        ),
        state.on_fence(FenceOutcome::Signaled).0.phase is Recreating || state.on_fence(
            FenceOutcome::Signaled,
        ).0.phase is WaitingIdle,
        state.on_fence(FenceOutcome::Signaled).0.phase is Recreating <==> state.on_fence(
            FenceOutcome::Signaled,
        ).0.all_idle(),
        state.on_fence(FenceOutcome::Signaled).0.recreate_pending == state.recreate_pending,
{
    lemma_on_fence(state, FenceOutcome::Signaled);
    let slot = state.awaited_slot();
    let freed = RendererState {
        slots: state.slots.update(
            slot as int,
            FrameSlot { in_flight: false, ..state.slots[slot as int] },
        ),
        consecutive_timeouts: 0,
        ..state
    };
    lemma_toward_recreate(freed);
}

/// Resize: once the rebuild has reached the surface query, which it has
/// after a resize notification and the fences of the frames then in
/// flight, a surface that answers with `report` and a swapchain built
/// with `image_count` images end the iteration in a live swapchain of
/// the next generation whose extent is the surface's extent held within
/// its limits, with one framebuffer per image and no rebuild pending.
pub proof fn lemma_rebuild_matches_surface(
    state: RendererState,
    report: SurfaceReportView,
    image_count: u32,
)
    requires
        state.wf(),
        state.phase is Recreating,
        state.generation < u64::MAX,
    ensures
        ({
            let (building, second) = state.on_surface_queried(Some(report));
            let (live, third) = building.on_swapchain_built(BuildOutcome::Built { image_count });
            &&& second == (RenderAction::BuildSwapchain {
                properties: report.chosen_properties(state.config.preferred_image_count),
            })
            &&& third == RenderAction::FrameDone
            &&& live.wf()
            &&& live.phase is Live
            &&& live.properties == report.chosen_properties(state.config.preferred_image_count)
            &&& live.properties.dimensions == spec_choose_extent(
                report.capabilities,
                report.window_dimensions,
            )
            &&& live.image_count == image_count
            &&& live.framebuffer_count == image_count
            &&& live.generation == state.generation + 1
            &&& !live.recreate_pending
        }),
{
    lemma_on_surface_queried(state, Some(report));
    let (building, second) = state.on_surface_queried(Some(report));
    lemma_on_swapchain_built(building, BuildOutcome::Built { image_count });
}

/// The frame cycle of the render thread. It owns no GPU object: it keeps
/// what the decisions depend on and tells its caller what to do next.
pub struct RenderManager {
    generation: u64,
    properties: SwapchainProperties,
    image_count: u32,
    framebuffer_count: u32,
    recreate_pending: bool,
    phase: FramePhase,
    slots: Vec<FrameSlot>,
    current_slot: usize,
    consecutive_timeouts: u32,
    config: EngineConfig,
}

impl View for RenderManager {
    type V = RendererState;

    closed spec fn view(&self) -> RendererState {
        RendererState {
            generation: self.generation,
            properties: self.properties,
            image_count: self.image_count,
            framebuffer_count: self.framebuffer_count,
            recreate_pending: self.recreate_pending,
            phase: self.phase,
            slots: self.slots@,
            current_slot: self.current_slot,
            consecutive_timeouts: self.consecutive_timeouts,
            config: self.config,
        }
    }
}

impl RenderManager {
    /// The cycle for a swapchain just created with `properties` and
    /// `image_count` images: generation zero, live, every slot free.
    pub fn new(config: EngineConfig, properties: SwapchainProperties, image_count: u32) -> (renderer:
        Self)
        requires
            config.well_formed(),
        ensures
            renderer@.wf(),
            renderer@.generation == 0,
            renderer@.properties == properties,
            renderer@.image_count == image_count,
            renderer@.framebuffer_count == image_count,
            !renderer@.recreate_pending,
            renderer@.phase is Live,
            renderer@.all_idle(),
            forall|i: int|
                0 <= i < renderer@.slots.len() ==> #[trigger] renderer@.slots[i] == (FrameSlot {
                    in_flight: false,
                    generation: 0,
                }),
            renderer@.current_slot == 0,
            renderer@.consecutive_timeouts == 0,
            renderer@.config == config,
    {
        Self::starting_at(config, properties, image_count, 0)
    }

    /// The cycle for a live swapchain that is the `generation`-th built:
    /// every slot free, nothing pending.
    pub fn starting_at(
        config: EngineConfig,
        properties: SwapchainProperties,
        image_count: u32,
        generation: u64,
    ) -> (renderer: Self)
        requires
            config.well_formed(),
        ensures
            renderer@.wf(),
            renderer@.generation == generation,
            renderer@.properties == properties,
            renderer@.image_count == image_count,
            renderer@.framebuffer_count == image_count,
            !renderer@.recreate_pending,
            renderer@.phase is Live,
            renderer@.all_idle(),
            forall|i: int|
                0 <= i < renderer@.slots.len() ==> #[trigger] renderer@.slots[i] == (FrameSlot {
                    in_flight: false,
                    generation,
                }),
            renderer@.current_slot == 0,
            renderer@.consecutive_timeouts == 0,
            renderer@.config == config,
    {
        let mut slots: Vec<FrameSlot> = Vec::new();
        let mut made: usize = 0;
        while made < config.max_frames_in_flight
            invariant
                made <= config.max_frames_in_flight,
                slots@.len() == made,
                forall|i: int|
                    0 <= i < slots@.len() ==> #[trigger] slots@[i] == (FrameSlot {
                        in_flight: false,
                        generation,
                    }),
            decreases config.max_frames_in_flight - made,
        {
            slots.push(FrameSlot { in_flight: false, generation });
            made = made + 1;
        }
        RenderManager {
            generation,
            properties,
            image_count,
            framebuffer_count: image_count,
            recreate_pending: false,
            phase: FramePhase::Live,
            slots,
            current_slot: 0,
            consecutive_timeouts: 0,
            config,
        }
    }

    /// Where the cycle stands.
    pub fn phase(&self) -> (phase: FramePhase)
        ensures
            phase == self@.phase,
    {
        self.phase
    }

    /// The generation of the live swapchain.
    pub fn generation(&self) -> (generation: u64)
        ensures
            generation == self@.generation,
    {
        self.generation
    }

    /// The settings of the live swapchain.
    pub fn properties(&self) -> (properties: SwapchainProperties)
        ensures
            properties == self@.properties,
    {
        self.properties
    }

    /// The number of images of the live swapchain.
    pub fn image_count(&self) -> (count: u32)
        ensures
            count == self@.image_count,
    {
        self.image_count
    }

    /// The number of framebuffers built for the live swapchain.
    pub fn framebuffer_count(&self) -> (count: u32)
        ensures
            count == self@.framebuffer_count,
    {
        self.framebuffer_count
    }

    /// Whether the swapchain is to be rebuilt before the next frame.
    pub fn recreate_pending(&self) -> (pending: bool)
        ensures
            pending == self@.recreate_pending,
    {
        self.recreate_pending
    }

    /// The number of frames in flight, never more than the configuration
    /// allows.
    pub fn frames_in_flight(&self) -> (count: usize)
        requires
            self@.wf(),
        ensures
            count == in_flight_count(self@.slots),
            count <= self@.config.max_frames_in_flight,
    {
        let mut count: usize = 0;
        let mut index: usize = 0;
        while index < self.slots.len()
            invariant
                index <= self.slots.len(),
                count <= index,
                count == in_flight_count(self.slots@.subrange(0, index as int)),
            decreases self.slots.len() - index,
        {
            proof {
                assert(self.slots@.subrange(0, index + 1).drop_last() =~= self.slots@.subrange(
                    0,
                    index as int,
                ));
            }
            if self.slots[index].in_flight {
                count = count + 1;
            }
            index = index + 1;
        }
        proof {
            assert(self.slots@.subrange(0, index as int) =~= self.slots@);
            lemma_in_flight_count_bounded(self.slots@);
        }
        count
    }

    /// Turns toward a rebuild: waits for the first frame still in flight
    /// or, with none left, starts on the surface.
    fn recreate_swapchain(&mut self) -> (action: RenderAction)
        requires
            old(self)@.inv(),
        ensures
            (final(self)@, action) == old(self)@.toward_recreate(),
            final(self)@.wf(),
    {
        let mut index: usize = 0;
        while index < self.slots.len()
            invariant
                index <= self.slots.len(),
                *self == *old(self),
                old(self)@.inv(),
                forall|i: int| 0 <= i < index ==> !(#[trigger] self.slots@[i]).in_flight,
            decreases self.slots.len() - index,
        {
            if self.slots[index].in_flight {
                proof {
                    lemma_first_in_flight(self.slots@, index as int);
                    lemma_toward_recreate(self@);
                }
                self.phase = FramePhase::WaitingIdle { slot: index };
                return RenderAction::WaitForFence {
                    slot: index,
                    timeout_nanos: self.config.fence_timeout_nanos,
                };
            }
            index = index + 1;
        }
        proof {
            lemma_first_in_flight(self.slots@, index as int);
            lemma_toward_recreate(self@);
        }
        self.phase = FramePhase::Recreating;
        RenderAction::QuerySurface
    }

    /// Starts a frame iteration; `window_resized` tells whether the
    /// window reported a resize since the last one.
    pub fn render_frame(&mut self, window_resized: bool) -> (action: RenderAction)
        requires
            old(self)@.wf(),
            old(self)@.phase is Live,
        ensures
            (final(self)@, action) == old(self)@.render_frame(window_resized),
            final(self)@.wf(),
    {
        proof {
            lemma_render_frame(self@, window_resized);
        }
        self.recreate_pending = self.recreate_pending || window_resized;
        if self.recreate_pending {
            self.recreate_swapchain()
        } else if self.slots[self.current_slot].in_flight {
            self.phase = FramePhase::WaitingFence;
            RenderAction::WaitForFence {
                slot: self.current_slot,
                timeout_nanos: self.config.fence_timeout_nanos,
            }
        } else {
            self.phase = FramePhase::AcquirePending;
            RenderAction::AcquireImage { slot: self.current_slot }
        }
    }

    /// Takes the outcome of the fence wait last asked for.
    pub fn on_fence(&mut self, outcome: FenceOutcome) -> (action: RenderAction)
        requires
            old(self)@.wf(),
            old(self)@.phase is WaitingFence || old(self)@.phase is WaitingIdle,
        ensures
            (final(self)@, action) == old(self)@.on_fence(outcome),
            final(self)@.wf(),
    {
        proof {
            lemma_on_fence(self@, outcome);
        }
        let slot: usize = match self.phase {
            FramePhase::WaitingIdle { slot } => slot,
            _ => self.current_slot,
        };
        let draining: bool = match self.phase {
            FramePhase::WaitingIdle { .. } => true,
            _ => false,
        };
        match outcome {
            FenceOutcome::Signaled => {
                let freed = FrameSlot { in_flight: false, generation: self.slots[slot].generation };
                self.slots.set(slot, freed);
                self.consecutive_timeouts = 0;
                if draining {
                    self.recreate_swapchain()
                } else {
                    self.phase = FramePhase::AcquirePending;
                    RenderAction::AcquireImage { slot: self.current_slot }
                }
            },
            FenceOutcome::TimedOut => {
                if self.consecutive_timeouts + 1 >= self.config.max_consecutive_timeouts {
                    self.phase = FramePhase::Failed;
                    RenderAction::Fatal {
                        error: RenderError::DeviceTimeout {
                            waited_nanos: self.config.fence_timeout_nanos,
                        },
                    }
                } else {
                    self.consecutive_timeouts = self.consecutive_timeouts + 1;
                    RenderAction::WaitForFence {
                        slot,
                        timeout_nanos: self.config.fence_timeout_nanos,
                    }
                }
            },
        }
    }

    /// Takes the outcome of the acquisition last asked for.
    pub fn on_acquire(&mut self, outcome: AcquireOutcome) -> (action: RenderAction)
        requires
            old(self)@.wf(),
            old(self)@.phase is AcquirePending,
        ensures
            (final(self)@, action) == old(self)@.on_acquire(outcome),
            final(self)@.wf(),
    {
        proof {
            lemma_on_acquire(self@, outcome);
        }
        match outcome {
            AcquireOutcome::Image { index, suboptimal } => {
                if index < self.image_count {
                    self.recreate_pending = self.recreate_pending || suboptimal;
                    self.phase = FramePhase::Presenting { image_index: index };
                    RenderAction::Draw { image_index: index, slot: self.current_slot }
                } else {
                    self.phase = FramePhase::Failed;
                    RenderAction::Fatal { error: RenderError::AcquireFailed }
                }
            },
            AcquireOutcome::OutOfDate => {
                self.recreate_pending = true;
                self.recreate_swapchain()
            },
            AcquireOutcome::Failed => {
                self.phase = FramePhase::Failed;
                RenderAction::Fatal { error: RenderError::AcquireFailed }
            },
        }
    }

    /// Takes the outcome of the submission and presentation last asked
    /// for.
    pub fn on_present(&mut self, outcome: PresentOutcome) -> (action: RenderAction)
        requires
            old(self)@.wf(),
            old(self)@.phase is Presenting,
        ensures
            (final(self)@, action) == old(self)@.on_present(outcome),
            final(self)@.wf(),
    {
        proof {
            lemma_on_present(self@, outcome);
        }
        match outcome {
            PresentOutcome::Failed => {
                self.phase = FramePhase::Live;
            },
            _ => {
                let submitted = FrameSlot { in_flight: true, generation: self.generation };
                self.slots.set(self.current_slot, submitted);
                self.current_slot = if self.current_slot + 1 >= self.slots.len() {
                    0
                } else {
                    self.current_slot + 1
                };
                let presented: bool = match outcome {
                    PresentOutcome::Presented => true,
                    _ => false,
                };
                self.recreate_pending = self.recreate_pending || !presented;
                self.phase = FramePhase::Live;
            },
        }
        RenderAction::FrameDone
    }

    /// Takes the outcome of the surface query last asked for.
    pub fn on_surface_queried(&mut self, query: SurfaceQuery) -> (action: RenderAction)
        requires
            old(self)@.wf(),
            old(self)@.phase is Recreating,
            query@ is Some ==> query@->Some_0.usable(),
        ensures
            (final(self)@, action) == old(self)@.on_surface_queried(query@),
            final(self)@.wf(),
    {
        proof {
            lemma_on_surface_queried(self@, query@);
        }
        match query {
            SurfaceQuery::Report(report) => {
                let properties = swapchain_properties(&report, self.config.preferred_image_count);
                self.phase = FramePhase::Building { properties };
                RenderAction::BuildSwapchain { properties }
            },
            SurfaceQuery::Lost => {
                self.phase = FramePhase::Failed;
                RenderAction::Fatal { error: RenderError::SurfaceLost }
            },
        }
    }

    /// Takes the outcome of the build last asked for.
    pub fn on_swapchain_built(&mut self, outcome: BuildOutcome) -> (action: RenderAction)
        requires
            old(self)@.wf(),
            old(self)@.phase is Building,
        ensures
            (final(self)@, action) == old(self)@.on_swapchain_built(outcome),
            final(self)@.wf(),
    {
        proof {
            lemma_on_swapchain_built(self@, outcome);
        }
        match (outcome, self.phase) {
            (BuildOutcome::Built { image_count }, FramePhase::Building { properties }) => {
                if self.generation < u64::MAX {
                    self.generation = self.generation + 1;
                    self.properties = properties;
                    self.image_count = image_count;
                    self.framebuffer_count = image_count;
                    self.recreate_pending = false;
                    self.phase = FramePhase::Live;
                    RenderAction::FrameDone
                } else {
                    self.phase = FramePhase::Failed;
                    RenderAction::Fatal { error: RenderError::GenerationExhausted }
                }
            },
            _ => {
                self.phase = FramePhase::Failed;
                RenderAction::Fatal { error: RenderError::SurfaceLost }
            },
        }
    }
}

} // verus!
