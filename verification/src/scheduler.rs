//! The frame scheduler: the steady-state render loop of acquire, record,
//! submit, present and advance, bounded by a fixed pool of frame slots.
//!
//! Each slot owns one command buffer, an image-available semaphore, a
//! render-finished semaphore and an in-flight fence; the scheduler models the
//! host-visible part of that state and decides, step by step, what the code
//! that owns the device must do next. The device operations themselves —
//! waiting on the fence, acquiring an image, replaying the command stream,
//! submitting and presenting — happen outside the library; their outcomes are
//! reported back, and the scheduler is verified to react correctly to every
//! reported outcome.
//!
//! The protocol per frame is fixed: wait on the current slot's fence and
//! reset it, acquire a swapchain image signalling the slot's image-available
//! semaphore, re-record the slot's command buffer, submit it waiting on
//! image-available (at the color-attachment-output stage) and signalling both
//! render-finished and the slot's fence, present the image gated on
//! render-finished, and advance to the next slot.

use vstd::prelude::*;

use crate::commands::{frame_commands, record_command_buffer, RenderCommand};
use crate::swapchain::Extent2D;
use crate::teardown::{
    slot_sync_teardown, sync_teardown, framebuffer_teardown, image_view_teardown, teardown_plan,
    waits_before_sync_destroy, TeardownStep,
};

verus! {

/// The host-visible synchronization state of one frame slot.
#[derive(Clone, Copy, PartialEq, Eq, Structural, Debug)]
pub struct FrameSlot {
    /// A submission referencing this slot's command buffer and fence has been
    /// enqueued and its fence has not been waited on since: the slot's
    /// command buffer must not be touched.
    pub in_flight: bool,
}

/// Where the scheduler stands inside the per-frame protocol.
#[derive(Clone, Copy, PartialEq, Eq, Structural, Debug)]
pub enum Phase {
    /// Between frames: the next step is waiting on the current slot's fence.
    Ready,
    /// The current slot's fence was waited on and reset; an image acquisition
    /// signalling the slot's image-available semaphore is outstanding.
    ImageRequested,
    /// The image at `image_index` was acquired; the slot's command buffer is
    /// free and must be re-recorded.
    Recording { image_index: usize },
    /// The command buffer is recorded; the submission is outstanding.
    Submitting { image_index: usize },
    /// The submission was enqueued; the presentation is outstanding.
    Presenting { image_index: usize },
    /// A fatal error was reported; only teardown remains.
    Failed,
    /// The teardown plan has been handed out.
    Finished,
}

/// What the swapchain reported for an image acquisition.
#[derive(Clone, Copy, PartialEq, Eq, Structural, Debug)]
pub enum AcquireOutcome {
    /// The image at `image_index` was acquired.
    Image { image_index: usize },
    /// The surface is stale; the swapchain no longer matches it.
    OutOfDate,
    /// The acquisition timed out.
    Timeout,
}

/// What the present queue reported for a presentation.
#[derive(Clone, Copy, PartialEq, Eq, Structural, Debug)]
pub enum PresentOutcome {
    /// The image was queued for presentation.
    Presented,
    /// The surface is stale; the swapchain no longer matches it.
    OutOfDate,
}

/// A fatal render-loop error, named after the operation that failed. None of
/// these are recovered: the loop stops and only teardown remains.
#[derive(Clone, Copy, PartialEq, Eq, Structural, Debug)]
pub enum RenderError {
    /// Image acquisition reported the surface out of date.
    AcquireOutOfDate,
    /// Image acquisition timed out.
    AcquireTimeout,
    /// Re-recording the command buffer failed.
    RecordFailed,
    /// The queue submission was rejected.
    SubmitFailed,
    /// Presentation reported the surface out of date.
    PresentOutOfDate,
}

/// A reason the scheduler could not be constructed.
#[derive(Clone, Copy, PartialEq, Eq, Structural, Debug)]
pub enum SetupError {
    /// A scheduler needs at least one frame slot.
    NoFrameSlots,
    /// A scheduler needs a swapchain with at least one image.
    NoSwapchainImages,
}

/// The submission the scheduler asks for: which slot's command buffer to
/// submit, waiting on which image-available semaphore (at the
/// color-attachment-output stage) and signalling which render-finished
/// semaphore and in-flight fence. All four belong to the same slot.
#[derive(Clone, Copy, PartialEq, Eq, Structural, Debug)]
pub struct SubmitPlan {
    pub command_buffer_slot: usize,
    pub wait_image_available_slot: usize,
    pub signal_render_finished_slot: usize,
    pub signal_fence_slot: usize,
}

/// The presentation the scheduler asks for: which image to present, gated on
/// which slot's render-finished semaphore.
#[derive(Clone, Copy, PartialEq, Eq, Structural, Debug)]
pub struct PresentPlan {
    pub image_index: usize,
    pub wait_render_finished_slot: usize,
}

/// How many of the slots are in flight.
pub open spec fn in_flight_count(slots: Seq<FrameSlot>) -> nat
    decreases slots.len(),
{
    if slots.len() == 0 {
        0
    } else {
        in_flight_count(slots.drop_last()) + if slots.last().in_flight {
            1nat
        } else {
            0nat
        }
    }
}

/// The scheduler of the render loop. `new` establishes `wf`, and every
/// method preserves it.
pub struct FrameScheduler {
    /// One slot per frame that may be in flight, fixed at construction.
    pub slots: Vec<FrameSlot>,
    /// Number of swapchain images; image indices are below this.
    pub image_count: usize,
    /// The swapchain extent, fixed at construction.
    pub extent: Extent2D,
    /// The slot the current (or next) frame uses; always below the slot count.
    pub current_frame: usize,
    /// Where the scheduler stands inside the per-frame protocol.
    pub phase: Phase,
    /// How many frames have been completed since construction.
    pub frames_completed: Ghost<nat>,
}

impl FrameScheduler {
    /// The number of frame slots.
    pub open spec fn num_slots(&self) -> nat {
        self.slots@.len()
    }

    /// The slot the current frame uses.
    pub open spec fn current(&self) -> int {
        self.current_frame as int
    }

    /// Well-formedness: the slot pool is fixed and nonempty, the current slot
    /// index is the number of completed frames modulo the slot count, and the
    /// phase agrees with the current slot's fence state — between fence wait
    /// and submission the slot is not in flight, after submission it is.
    pub open spec fn wf(&self) -> bool {
        &&& self.num_slots() >= 1
        &&& self.image_count >= 1
        &&& 0 <= self.current() < self.num_slots()
        &&& self.current() == self.frames_completed@ as int % self.num_slots() as int
        &&& (self.phase is ImageRequested ==> !self.slots@[self.current()].in_flight)
        &&& (self.phase matches Phase::Recording { image_index } ==> image_index
            < self.image_count && !self.slots@[self.current()].in_flight)
        &&& (self.phase matches Phase::Submitting { image_index } ==> image_index
            < self.image_count && !self.slots@[self.current()].in_flight)
        &&& (self.phase matches Phase::Presenting { image_index } ==> image_index
            < self.image_count && self.slots@[self.current()].in_flight)
    }

    /// Builds a scheduler over `num_slots` frame slots and a swapchain of
    /// `image_count` images with the given extent. Every slot starts idle
    /// with its fence created signalled, so the first wait on it succeeds at
    /// once; construction fails exactly when a count is zero.
    pub fn new(num_slots: usize, image_count: usize, extent: Extent2D) -> (r: Result<
        FrameScheduler,
        SetupError,
    >)
        ensures
            num_slots == 0 ==> r == Err::<FrameScheduler, SetupError>(SetupError::NoFrameSlots),
            num_slots >= 1 && image_count == 0 ==> r == Err::<FrameScheduler, SetupError>(
                SetupError::NoSwapchainImages,
            ),
            num_slots >= 1 && image_count >= 1 ==> (r matches Ok(s) && {
                &&& s.wf()
                &&& s.num_slots() == num_slots
                &&& s.image_count == image_count
                &&& s.extent == extent
                &&& s.current_frame == 0
                &&& s.phase is Ready
                &&& s.frames_completed@ == 0
                &&& forall|k: int| 0 <= k < num_slots ==> !s.slots@[k].in_flight
            }),
    {
        if num_slots == 0 {
            return Err(SetupError::NoFrameSlots);
        }
        if image_count == 0 {
            return Err(SetupError::NoSwapchainImages);
        }
        let mut slots: Vec<FrameSlot> = Vec::new();
        let mut i: usize = 0;
        while i < num_slots
            invariant
                0 <= i <= num_slots,
                slots@.len() == i,
                forall|k: int| 0 <= k < i ==> !slots@[k].in_flight,
            decreases num_slots - i,
        {
            slots.push(FrameSlot { in_flight: false });
            i = i + 1;
        }
        proof {
            vstd::arithmetic::div_mod::lemma_small_mod(0nat, num_slots as nat);
        }
        Ok(
            FrameScheduler {
                slots,
                image_count,
                extent,
                current_frame: 0,
                phase: Phase::Ready,
                frames_completed: Ghost(0),
            },
        )
    }

    /// Starts a frame: the caller must block on the current slot's in-flight
    /// fence and then reset it, which is what makes the slot's command buffer
    /// safe to reuse. The wait is driven to completion — the loop waits with
    /// an effectively unbounded timeout, so the only outcome it reports is
    /// success. Returns the slot whose fence (and semaphores) this frame
    /// uses; afterwards an acquisition signalling that slot's image-available
    /// semaphore is outstanding.
    pub fn begin_frame(&mut self) -> (slot: usize)
        requires
            old(self).wf(),
            old(self).phase is Ready,
        ensures
            final(self).wf(),
            slot == old(self).current_frame,
            final(self).phase is ImageRequested,
            final(self).current_frame == old(self).current_frame,
            final(self).image_count == old(self).image_count,
            final(self).extent == old(self).extent,
            final(self).frames_completed == old(self).frames_completed,
            final(self).slots@ == old(self).slots@.update(
                slot as int,
                FrameSlot { in_flight: false },
            ),
            !final(self).slots@[slot as int].in_flight,
    {
        let slot = self.current_frame;
        // The fence wait has completed and the fence was reset: the previous
        // submission on this slot, if any, is finished.
        self.slots[slot] = FrameSlot { in_flight: false };
        self.phase = Phase::ImageRequested;
        slot
    }

    /// Takes the outcome of the image acquisition. On an acquired image the
    /// frame moves on to recording and the image index is handed back; a
    /// stale surface or a timeout is fatal. The slot states are untouched
    /// either way: nothing was submitted yet.
    pub fn complete_acquire(&mut self, outcome: AcquireOutcome) -> (r: Result<usize, RenderError>)
        requires
            old(self).wf(),
            old(self).phase is ImageRequested,
            outcome matches AcquireOutcome::Image { image_index } ==> image_index
                < old(self).image_count,
        ensures
            final(self).wf(),
            final(self).slots@ == old(self).slots@,
            final(self).current_frame == old(self).current_frame,
            final(self).image_count == old(self).image_count,
            final(self).extent == old(self).extent,
            final(self).frames_completed == old(self).frames_completed,
            outcome matches AcquireOutcome::Image { image_index } ==> {
                &&& r == Ok::<usize, RenderError>(image_index)
                &&& final(self).phase == (Phase::Recording { image_index })
            },
            outcome is OutOfDate ==> r == Err::<usize, RenderError>(RenderError::AcquireOutOfDate)
                && final(self).phase is Failed,
            outcome is Timeout ==> r == Err::<usize, RenderError>(RenderError::AcquireTimeout)
                && final(self).phase is Failed,
    {
        match outcome {
            AcquireOutcome::Image { image_index } => {
                self.phase = Phase::Recording { image_index };
                Ok(image_index)
            },
            AcquireOutcome::OutOfDate => {
                self.phase = Phase::Failed;
                Err(RenderError::AcquireOutOfDate)
            },
            AcquireOutcome::Timeout => {
                self.phase = Phase::Failed;
                Err(RenderError::AcquireTimeout)
            },
        }
    }

    /// The command stream to record into the current slot's command buffer:
    /// exactly the frame commands for the acquired image and the swapchain
    /// extent. The slot is re-recorded only here, and the scheduler is only
    /// ever in this phase with the slot's previous fence waited on.
    pub fn record_commands(&self) -> (r: Vec<RenderCommand>)
        requires
            self.wf(),
            self.phase matches Phase::Recording { image_index },
        ensures
            r@ == frame_commands(self.phase->Recording_image_index, self.extent),
    {
        let image_index = match self.phase {
            Phase::Recording { image_index } => image_index,
            _ => 0,  // unreachable under the precondition
        };
        record_command_buffer(image_index, self.extent)
    }

    /// Takes the outcome of re-recording the command buffer. On success the
    /// frame moves on to submission and the submit plan is handed back: the
    /// current slot's command buffer, waiting on the same slot's
    /// image-available semaphore and signalling its render-finished semaphore
    /// and in-flight fence. A recording failure is fatal.
    pub fn complete_record(&mut self, recorded: bool) -> (r: Result<SubmitPlan, RenderError>)
        requires
            old(self).wf(),
            old(self).phase matches Phase::Recording { image_index },
        ensures
            final(self).wf(),
            final(self).slots@ == old(self).slots@,
            final(self).current_frame == old(self).current_frame,
            final(self).image_count == old(self).image_count,
            final(self).extent == old(self).extent,
            final(self).frames_completed == old(self).frames_completed,
            recorded ==> {
                &&& r == Ok::<SubmitPlan, RenderError>(
                    SubmitPlan {
                        command_buffer_slot: old(self).current_frame,
                        wait_image_available_slot: old(self).current_frame,
                        signal_render_finished_slot: old(self).current_frame,
                        signal_fence_slot: old(self).current_frame,
                    },
                )
                &&& final(self).phase == (Phase::Submitting {
                    image_index: old(self).phase->Recording_image_index,
                })
            },
            !recorded ==> r == Err::<SubmitPlan, RenderError>(RenderError::RecordFailed)
                && final(self).phase is Failed,
    {
        let image_index = match self.phase {
            Phase::Recording { image_index } => image_index,
            _ => 0,  // unreachable under the precondition
        };
        if !recorded {
            self.phase = Phase::Failed;
            return Err(RenderError::RecordFailed);
        }
        self.phase = Phase::Submitting { image_index };
        let slot = self.current_frame;
        Ok(
            SubmitPlan {
                command_buffer_slot: slot,
                wait_image_available_slot: slot,
                signal_render_finished_slot: slot,
                signal_fence_slot: slot,
            },
        )
    }

    /// Takes the outcome of the queue submission. On success the current slot
    /// becomes in flight — its command buffer belongs to the device until its
    /// fence is waited on again — and the present plan is handed back: the
    /// acquired image, gated on the slot's render-finished semaphore. A
    /// rejected submission is fatal and leaves the slot idle.
    pub fn complete_submit(&mut self, submitted: bool) -> (r: Result<PresentPlan, RenderError>)
        requires
            old(self).wf(),
            old(self).phase matches Phase::Submitting { image_index },
        ensures
            final(self).wf(),
            final(self).current_frame == old(self).current_frame,
            final(self).image_count == old(self).image_count,
            final(self).extent == old(self).extent,
            final(self).frames_completed == old(self).frames_completed,
            submitted ==> {
                &&& r == Ok::<PresentPlan, RenderError>(
                    PresentPlan {
                        image_index: old(self).phase->Submitting_image_index,
                        wait_render_finished_slot: old(self).current_frame,
                    },
                )
                &&& final(self).phase == (Phase::Presenting {
                    image_index: old(self).phase->Submitting_image_index,
                })
                &&& final(self).slots@ == old(self).slots@.update(
                    old(self).current(),
                    FrameSlot { in_flight: true },
                )
            },
            !submitted ==> {
                &&& r == Err::<PresentPlan, RenderError>(RenderError::SubmitFailed)
                &&& final(self).phase is Failed
                &&& final(self).slots@ == old(self).slots@
            },
    {
        let image_index = match self.phase {
            Phase::Submitting { image_index } => image_index,
            _ => 0,  // unreachable under the precondition
        };
        if !submitted {
            self.phase = Phase::Failed;
            return Err(RenderError::SubmitFailed);
        }
        let slot = self.current_frame;
        self.slots[slot] = FrameSlot { in_flight: true };
        self.phase = Phase::Presenting { image_index };
        Ok(PresentPlan { image_index, wait_render_finished_slot: slot })
    }

    /// Takes the outcome of the presentation. On success the frame is done:
    /// the frame counter goes up by one and the current slot advances by
    /// exactly one, modulo the slot count. A stale surface at presentation is
    /// fatal, and the slot stays in flight — only a fence wait would clear
    /// it.
    pub fn complete_present(&mut self, outcome: PresentOutcome) -> (r: Result<(), RenderError>)
        requires
            old(self).wf(),
            old(self).phase matches Phase::Presenting { image_index },
        ensures
            final(self).wf(),
            final(self).slots@ == old(self).slots@,
            final(self).image_count == old(self).image_count,
            final(self).extent == old(self).extent,
            outcome is Presented ==> {
                &&& r == Ok::<(), RenderError>(())
                &&& final(self).phase is Ready
                &&& final(self).frames_completed@ == old(self).frames_completed@ + 1
                &&& final(self).current_frame as int == (old(self).current_frame as int + 1) % (
                old(self).num_slots() as int)
            },
            outcome is OutOfDate ==> {
                &&& r == Err::<(), RenderError>(RenderError::PresentOutOfDate)
                &&& final(self).phase is Failed
                &&& final(self).frames_completed == old(self).frames_completed
                &&& final(self).current_frame == old(self).current_frame
            },
    {
        match outcome {
            PresentOutcome::Presented => {
                let n = self.slots.len();
                let ghost f = self.frames_completed@;
                let ghost old_cur = self.current_frame as int;
                self.current_frame = (self.current_frame + 1) % n;
                proof {
                    self.frames_completed@ = f + 1;
                    assert(self.current_frame as int == ((f + 1) as int) % (n as int)) by {
                        vstd::arithmetic::div_mod::lemma_add_mod_noop(
                            f as int,
                            1int,
                            n as int,
                        );
                        if n == 1 {
                            vstd::arithmetic::div_mod::lemma_small_mod(0nat, 1nat);
                        } else {
                            vstd::arithmetic::div_mod::lemma_small_mod(1nat, n as nat);
                        }
                    }
                }
                self.phase = Phase::Ready;
                Ok(())
            },
            PresentOutcome::OutOfDate => {
                self.phase = Phase::Failed;
                Err(RenderError::PresentOutOfDate)
            },
        }
    }

    /// Tears the renderer down: waits for the device to go idle — after
    /// which no slot is in flight — and hands back the full teardown plan,
    /// every resource in strict reverse order of acquisition, the idle wait
    /// first. May be called between frames or after a fatal error, never in
    /// the middle of a frame.
    pub fn shutdown(&mut self) -> (r: Vec<TeardownStep>)
        requires
            old(self).wf(),
            old(self).phase is Ready || old(self).phase is Failed,
        ensures
            final(self).wf(),
            r@ == teardown_plan(old(self).num_slots() as int, old(self).image_count as int),
            waits_before_sync_destroy(r@),
            final(self).phase is Finished,
            final(self).slots@.len() == old(self).slots@.len(),
            forall|k: int| 0 <= k < final(self).num_slots() ==> !final(self).slots@[k].in_flight,
            final(self).current_frame == old(self).current_frame,
            final(self).image_count == old(self).image_count,
            final(self).extent == old(self).extent,
            final(self).frames_completed == old(self).frames_completed,
    {
        let n = self.slots.len();
        let m = self.image_count;
        // The device has been waited idle: every slot's submission completed.
        let mut i: usize = 0;
        while i < n
            invariant
                n == self.slots@.len(),
                0 <= i <= n,
                self.slots@.len() == old(self).slots@.len(),
                forall|k: int| 0 <= k < i ==> !self.slots@[k].in_flight,
                self.current_frame == old(self).current_frame,
                self.image_count == old(self).image_count,
                self.extent == old(self).extent,
                self.frames_completed == old(self).frames_completed,
                self.phase == old(self).phase,
                old(self).wf(),
            decreases n - i,
        {
            self.slots[i] = FrameSlot { in_flight: false };
            i = i + 1;
        }
        self.phase = Phase::Finished;
        teardown_steps(n, m)
    }
}

/// Builds the teardown plan for `num_slots` frame slots and `image_count`
/// swapchain images: the idle wait first, then every resource in strict
/// reverse order of acquisition.
pub fn teardown_steps(num_slots: usize, image_count: usize) -> (r: Vec<TeardownStep>)
    ensures
        r@ == teardown_plan(num_slots as int, image_count as int),
        r@.len() == 9 + 3 * num_slots + 2 * image_count,
        waits_before_sync_destroy(r@),
{
    proof {
        crate::teardown::lemma_teardown_plan_len(num_slots as int, image_count as int);
    }
    let n = num_slots;
    let m = image_count;
    let mut plan: Vec<TeardownStep> = Vec::new();
    plan.push(TeardownStep::WaitIdle);
    assert(plan@ =~= seq![TeardownStep::WaitIdle] + sync_teardown(0));
    let mut s: usize = 0;
    while s < n
        invariant
            0 <= s <= n,
            plan@ == seq![TeardownStep::WaitIdle] + sync_teardown(s as int),
        decreases n - s,
    {
        plan.push(TeardownStep::DestroyRenderFinishedSemaphore { slot: s });
        plan.push(TeardownStep::DestroyImageAvailableSemaphore { slot: s });
        plan.push(TeardownStep::DestroyInFlightFence { slot: s });
        proof {
            assert(sync_teardown(s + 1) == sync_teardown(s as int) + slot_sync_teardown(s as int));
            assert(plan@ =~= seq![TeardownStep::WaitIdle] + sync_teardown(s + 1));
        }
        s = s + 1;
    }
    plan.push(TeardownStep::DestroyCommandPool);
    let ghost head = seq![TeardownStep::WaitIdle] + sync_teardown(n as int) + seq![
        TeardownStep::DestroyCommandPool,
    ];
    assert(plan@ =~= head + framebuffer_teardown(0));
    let mut fb: usize = 0;
    while fb < m
        invariant
            0 <= fb <= m,
            plan@ == head + framebuffer_teardown(fb as int),
        decreases m - fb,
    {
        plan.push(TeardownStep::DestroyFramebuffer { image: fb });
        proof {
            assert(plan@ =~= head + framebuffer_teardown(fb + 1));
        }
        fb = fb + 1;
    }
    plan.push(TeardownStep::DestroyPipeline);
    plan.push(TeardownStep::DestroyPipelineLayout);
    plan.push(TeardownStep::DestroyRenderPass);
    let ghost mid = head + framebuffer_teardown(m as int) + seq![
        TeardownStep::DestroyPipeline,
        TeardownStep::DestroyPipelineLayout,
        TeardownStep::DestroyRenderPass,
    ];
    assert(plan@ =~= mid + image_view_teardown(0));
    let mut iv: usize = 0;
    while iv < m
        invariant
            0 <= iv <= m,
            plan@ == mid + image_view_teardown(iv as int),
        decreases m - iv,
    {
        plan.push(TeardownStep::DestroyImageView { image: iv });
        proof {
            assert(plan@ =~= mid + image_view_teardown(iv + 1));
        }
        iv = iv + 1;
    }
    plan.push(TeardownStep::DestroySwapchain);
    plan.push(TeardownStep::DestroySurface);
    plan.push(TeardownStep::DestroyDevice);
    plan.push(TeardownStep::DestroyInstance);
    proof {
        assert(plan@ =~= teardown_plan(n as int, m as int));
        crate::teardown::lemma_teardown_plan_waits_first(n as int, m as int);
    }
    plan
}

/// At any instant, at most as many frames are in flight as there are slots:
/// the number of submitted-but-not-yet-waited slots is bounded by the slot
/// count, however the run went.
pub proof fn lemma_in_flight_bounded(s: &FrameScheduler)
    requires
        s.wf(),
    ensures
        in_flight_count(s.slots@) <= s.num_slots(),
{
    lemma_in_flight_count_le_len(s.slots@);
}

/// The in-flight count of any slot sequence is at most its length.
proof fn lemma_in_flight_count_le_len(slots: Seq<FrameSlot>)
    ensures
        in_flight_count(slots) <= slots.len(),
    decreases slots.len(),
{
    if slots.len() > 0 {
        lemma_in_flight_count_le_len(slots.drop_last());
    }
}

/// The current slot strictly cycles: it always equals the number of
/// completed frames modulo the slot count, and `complete_present` is the one
/// step that advances either — the counter by one, the slot by one modulo
/// the slot count.
pub proof fn lemma_current_frame_cycles(s: &FrameScheduler)
    requires
        s.wf(),
    ensures
        s.current() == s.frames_completed@ as int % s.num_slots() as int,
{
}

/// A slot's command buffer is only ever re-recorded after the wait on its
/// in-flight fence: whenever the scheduler is in the recording phase, the
/// current slot — the only one whose command buffer may be touched — is not
/// in flight.
pub proof fn lemma_record_only_after_fence_wait(s: &FrameScheduler)
    requires
        s.wf(),
        s.phase matches Phase::Recording { image_index },
    ensures
        !s.slots@[s.current()].in_flight,
{
}

} // verus!
