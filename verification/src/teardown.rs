//! The ordered teardown plan.
//!
//! Destruction must happen in strict reverse order of acquisition, and no
//! synchronization object may be destroyed while the device might still
//! signal it: the plan therefore opens with a wait for the device to go idle,
//! and only then destroys, slot by slot and resource by resource.

use vstd::prelude::*;

verus! {

/// One step of the teardown, in the order it must be performed.
#[derive(Clone, Copy, PartialEq, Eq, Structural, Debug)]
pub enum TeardownStep {
    /// Block until the device has finished all submitted work.
    WaitIdle,
    /// Destroy the render-finished semaphore of the given frame slot.
    DestroyRenderFinishedSemaphore { slot: usize },
    /// Destroy the image-available semaphore of the given frame slot.
    DestroyImageAvailableSemaphore { slot: usize },
    /// Destroy the in-flight fence of the given frame slot.
    DestroyInFlightFence { slot: usize },
    /// Destroy the command pool, and with it the slots' command buffers.
    DestroyCommandPool,
    /// Destroy the framebuffer of the given swapchain image.
    DestroyFramebuffer { image: usize },
    /// Destroy the graphics pipeline.
    DestroyPipeline,
    /// Destroy the pipeline layout.
    DestroyPipelineLayout,
    /// Destroy the render pass.
    DestroyRenderPass,
    /// Destroy the image view of the given swapchain image.
    DestroyImageView { image: usize },
    /// Destroy the swapchain.
    DestroySwapchain,
    /// Destroy the window surface.
    DestroySurface,
    /// Destroy the logical device.
    DestroyDevice,
    /// Destroy the instance.
    DestroyInstance,
}

/// Whether the step destroys a synchronization object some submission might
/// still reference: a semaphore or a fence of a frame slot.
pub open spec fn destroys_sync_object(step: TeardownStep) -> bool {
    ||| step is DestroyRenderFinishedSemaphore
    ||| step is DestroyImageAvailableSemaphore
    ||| step is DestroyInFlightFence
}

/// The three sync-object destructions of one frame slot.
pub open spec fn slot_sync_teardown(slot: int) -> Seq<TeardownStep> {
    seq![
        TeardownStep::DestroyRenderFinishedSemaphore { slot: slot as usize },
        TeardownStep::DestroyImageAvailableSemaphore { slot: slot as usize },
        TeardownStep::DestroyInFlightFence { slot: slot as usize },
    ]
}

/// The sync-object destructions of the first `n` frame slots, in slot order.
pub open spec fn sync_teardown(n: int) -> Seq<TeardownStep>
    decreases n,
{
    if n <= 0 {
        Seq::empty()
    } else {
        sync_teardown(n - 1) + slot_sync_teardown(n - 1)
    }
}

/// The framebuffer destructions of the first `m` swapchain images, in order.
pub open spec fn framebuffer_teardown(m: int) -> Seq<TeardownStep>
    decreases m,
{
    if m <= 0 {
        Seq::empty()
    } else {
        framebuffer_teardown(m - 1).push(
            TeardownStep::DestroyFramebuffer { image: (m - 1) as usize },
        )
    }
}

/// The image-view destructions of the first `m` swapchain images, in order.
pub open spec fn image_view_teardown(m: int) -> Seq<TeardownStep>
    decreases m,
{
    if m <= 0 {
        Seq::empty()
    } else {
        image_view_teardown(m - 1).push(TeardownStep::DestroyImageView { image: (m - 1) as usize })
    }
}

/// The full teardown plan for `n` frame slots and `m` swapchain images:
/// an idle wait, then every resource in strict reverse order of acquisition.
pub open spec fn teardown_plan(n: int, m: int) -> Seq<TeardownStep> {
    seq![TeardownStep::WaitIdle] + sync_teardown(n) + seq![TeardownStep::DestroyCommandPool]
        + framebuffer_teardown(m) + seq![
        TeardownStep::DestroyPipeline,
        TeardownStep::DestroyPipelineLayout,
        TeardownStep::DestroyRenderPass,
    ] + image_view_teardown(m) + seq![
        TeardownStep::DestroySwapchain,
        TeardownStep::DestroySurface,
        TeardownStep::DestroyDevice,
        TeardownStep::DestroyInstance,
    ]
}

/// A plan only destroys sync objects after the device was waited idle: every
/// sync-object destruction is preceded by an idle wait.
pub open spec fn waits_before_sync_destroy(plan: Seq<TeardownStep>) -> bool {
    forall|i: int|
        0 <= i < plan.len() && destroys_sync_object(#[trigger] plan[i]) ==> exists|j: int|
            0 <= j < i && plan[j] is WaitIdle
}

/// Checks a recorded teardown order: true exactly when no sync object is
/// destroyed before an idle wait has happened.
pub fn teardown_order_is_safe(plan: &Vec<TeardownStep>) -> (r: bool)
    ensures
        r == waits_before_sync_destroy(plan@),
{
    let n = plan.len();
    let mut idx: usize = 0;
    let mut seen_wait: bool = false;
    let ghost mut first_wait: int = 0;
    while idx < n
        invariant
            n == plan@.len(),
            0 <= idx <= n,
            seen_wait ==> 0 <= first_wait < idx && plan@[first_wait] is WaitIdle,
            !seen_wait ==> forall|j: int| 0 <= j < idx ==> !(plan@[j] is WaitIdle),
            forall|i: int|
                0 <= i < idx && destroys_sync_object(#[trigger] plan@[i]) ==> exists|j: int|
                    0 <= j < i && plan@[j] is WaitIdle,
        decreases n - idx,
    {
        let step = plan[idx];
        match step {
            TeardownStep::WaitIdle => {
                if !seen_wait {
                    seen_wait = true;
                    proof {
                        first_wait = idx as int;
                    }
                }
            },
            TeardownStep::DestroyRenderFinishedSemaphore { .. } => {
                if !seen_wait {
                    return false;
                }
            },
            TeardownStep::DestroyImageAvailableSemaphore { .. } => {
                if !seen_wait {
                    return false;
                }
            },
            TeardownStep::DestroyInFlightFence { .. } => {
                if !seen_wait {
                    return false;
                }
            },
            _ => {},
        }
        idx = idx + 1;
    }
    true
}

/// The sync-object teardown of `n` slots has three steps per slot.
proof fn lemma_sync_teardown_len(n: int)
    requires
        n >= 0,
    ensures
        sync_teardown(n).len() == 3 * n,
    decreases n,
{
    if n > 0 {
        lemma_sync_teardown_len(n - 1);
    }
}

/// The framebuffer teardown of `m` images has one step per image.
proof fn lemma_framebuffer_teardown_len(m: int)
    requires
        m >= 0,
    ensures
        framebuffer_teardown(m).len() == m,
    decreases m,
{
    if m > 0 {
        lemma_framebuffer_teardown_len(m - 1);
    }
}

/// The image-view teardown of `m` images has one step per image.
proof fn lemma_image_view_teardown_len(m: int)
    requires
        m >= 0,
    ensures
        image_view_teardown(m).len() == m,
    decreases m,
{
    if m > 0 {
        lemma_image_view_teardown_len(m - 1);
    }
}

/// The teardown plan has nine fixed steps, three sync-object destructions
/// per frame slot, and a framebuffer and an image-view destruction per
/// swapchain image.
pub proof fn lemma_teardown_plan_len(n: int, m: int)
    requires
        n >= 0,
        m >= 0,
    ensures
        teardown_plan(n, m).len() == 9 + 3 * n + 2 * m,
{
    lemma_sync_teardown_len(n);
    lemma_framebuffer_teardown_len(m);
    lemma_image_view_teardown_len(m);
}

/// Every step of the teardown plan that destroys a sync object comes after
/// the idle wait: tearing the renderer down along the plan never destroys a
/// semaphore or fence the device could still signal.
pub proof fn lemma_teardown_plan_waits_first(n: int, m: int)
    ensures
        waits_before_sync_destroy(teardown_plan(n, m)),
        teardown_plan(n, m)[0] is WaitIdle,
{
    let plan = teardown_plan(n, m);
    assert(plan[0] is WaitIdle);
    assert forall|i: int|
        0 <= i < plan.len() && destroys_sync_object(#[trigger] plan[i]) implies exists|j: int|
        0 <= j < i && plan[j] is WaitIdle by {
        if i == 0 {
            assert(!destroys_sync_object(plan[0]));
        } else {
            assert(0 <= 0 < i && plan[0] is WaitIdle);
        }
    }
}

} // verus!
