use frame_scheduler::scheduler::{teardown_steps, FrameScheduler};
use frame_scheduler::swapchain::Extent2D;
use frame_scheduler::teardown::{teardown_order_is_safe, TeardownStep};

use TeardownStep::{
    DestroyCommandPool, DestroyDevice, DestroyFramebuffer, DestroyImageAvailableSemaphore,
    DestroyImageView, DestroyInFlightFence, DestroyInstance, DestroyPipeline,
    DestroyPipelineLayout, DestroyRenderFinishedSemaphore, DestroyRenderPass, DestroySurface,
    DestroySwapchain, WaitIdle,
};

#[test]
fn plan_is_reverse_acquisition_order() {
    // Two slots, three swapchain images: the exact plan, the idle wait
    // first, then sync objects, command pool, framebuffers, pipeline,
    // layout, render pass, image views, swapchain, surface, device,
    // instance.
    let plan = teardown_steps(2, 3);
    let expected = vec![
        WaitIdle,
        DestroyRenderFinishedSemaphore { slot: 0 },
        DestroyImageAvailableSemaphore { slot: 0 },
        DestroyInFlightFence { slot: 0 },
        DestroyRenderFinishedSemaphore { slot: 1 },
        DestroyImageAvailableSemaphore { slot: 1 },
        DestroyInFlightFence { slot: 1 },
        DestroyCommandPool,
        DestroyFramebuffer { image: 0 },
        DestroyFramebuffer { image: 1 },
        DestroyFramebuffer { image: 2 },
        DestroyPipeline,
        DestroyPipelineLayout,
        DestroyRenderPass,
        DestroyImageView { image: 0 },
        DestroyImageView { image: 1 },
        DestroyImageView { image: 2 },
        DestroySwapchain,
        DestroySurface,
        DestroyDevice,
        DestroyInstance,
    ];
    assert_eq!(plan, expected);
}

#[test]
fn plan_length_counts_slots_and_images() {
    assert_eq!(teardown_steps(1, 1).len(), 9 + 3 + 2);
    assert_eq!(teardown_steps(2, 3).len(), 9 + 6 + 6);
    assert_eq!(teardown_steps(3, 4).len(), 9 + 9 + 8);
}

#[test]
fn plan_passes_the_order_check() {
    let plan = teardown_steps(2, 3);
    assert!(teardown_order_is_safe(&plan));
}

#[test]
fn destroy_before_wait_is_flagged() {
    // A mock recording of a bad teardown: a fence destroyed before the
    // device was waited idle must be flagged as a violation.
    let bad = vec![
        DestroyInFlightFence { slot: 0 },
        WaitIdle,
        DestroyRenderFinishedSemaphore { slot: 0 },
    ];
    assert!(!teardown_order_is_safe(&bad));
    let also_bad = vec![DestroyImageAvailableSemaphore { slot: 1 }];
    assert!(!teardown_order_is_safe(&also_bad));
    let no_wait_but_no_sync = vec![DestroyCommandPool, DestroyDevice];
    assert!(teardown_order_is_safe(&no_wait_but_no_sync));
    let good = vec![WaitIdle, DestroyInFlightFence { slot: 0 }];
    assert!(teardown_order_is_safe(&good));
}

#[test]
fn shutdown_emits_the_plan_for_its_sizes() {
    let mut s = FrameScheduler::new(
        2,
        3,
        Extent2D {
            width: 800,
            height: 600,
        },
    )
    .unwrap();
    let plan = s.shutdown();
    assert_eq!(plan, teardown_steps(2, 3));
    assert!(teardown_order_is_safe(&plan));
}
