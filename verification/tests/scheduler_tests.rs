use frame_scheduler::scheduler::{
    AcquireOutcome, FrameScheduler, Phase, PresentOutcome, RenderError, SetupError,
};
use frame_scheduler::commands::RenderCommand;
use frame_scheduler::swapchain::Extent2D;

fn extent() -> Extent2D {
    Extent2D { width: 800, height: 600 }
}

/// Drives one full successful frame that acquires `image`; returns the slot
/// the frame used.
fn run_frame(s: &mut FrameScheduler, image: usize) -> usize {
    let slot = s.begin_frame();
    let got = s
        .complete_acquire(AcquireOutcome::Image { image_index: image })
        .expect("acquire reported success");
    assert_eq!(got, image);
    let cmds = s.record_commands();
    assert_eq!(cmds.len(), 6);
    let submit = s.complete_record(true).expect("recording succeeded");
    assert_eq!(submit.command_buffer_slot, slot);
    assert_eq!(submit.wait_image_available_slot, slot);
    assert_eq!(submit.signal_render_finished_slot, slot);
    assert_eq!(submit.signal_fence_slot, slot);
    let present = s.complete_submit(true).expect("submission succeeded");
    assert_eq!(present.image_index, image);
    assert_eq!(present.wait_render_finished_slot, slot);
    s.complete_present(PresentOutcome::Presented)
        .expect("presentation succeeded");
    slot
}

fn in_flight_count(s: &FrameScheduler) -> usize {
    s.slots.iter().filter(|slot| slot.in_flight).count()
}

#[test]
fn new_rejects_zero_slots() {
    assert!(matches!(
        FrameScheduler::new(0, 3, extent()),
        Err(SetupError::NoFrameSlots)
    ));
}

#[test]
fn new_rejects_zero_images() {
    assert!(matches!(
        FrameScheduler::new(2, 0, extent()),
        Err(SetupError::NoSwapchainImages)
    ));
}

#[test]
fn new_starts_idle_at_slot_zero() {
    let s = FrameScheduler::new(2, 3, extent()).unwrap();
    assert_eq!(s.current_frame, 0);
    assert_eq!(s.phase, Phase::Ready);
    assert_eq!(s.slots.len(), 2);
    assert_eq!(in_flight_count(&s), 0);
}

#[test]
fn five_frames_cycle_two_slots() {
    // Two frame slots, three swapchain images: five successful frames use the
    // slots 0,1,0,1,0 in order, one full acquire/submit/present round each.
    let mut s = FrameScheduler::new(2, 3, extent()).unwrap();
    let images = [0usize, 1, 2, 0, 1];
    let mut slots_used = Vec::new();
    for (k, &image) in images.iter().enumerate() {
        // The slot of the upcoming frame is the frame number modulo 2.
        assert_eq!(s.current_frame, k % 2);
        // The third frame reuses slot 0 and must first wait on the fence
        // that the first frame's submission signals, and so on: the slot
        // being reused is still in flight from two frames ago.
        if k >= 2 {
            assert!(s.slots[k % 2].in_flight);
        }
        slots_used.push(run_frame(&mut s, image));
        assert!(in_flight_count(&s) <= 2);
    }
    assert_eq!(slots_used, vec![0, 1, 0, 1, 0]);
    assert_eq!(s.current_frame, 1);
}

#[test]
fn single_slot_frame_stays_at_zero() {
    // One slot: a full frame waits and resets the fence once, draws, and the
    // advance wraps straight back to slot 0.
    let mut s = FrameScheduler::new(1, 2, extent()).unwrap();
    let slot = s.begin_frame();
    assert_eq!(slot, 0);
    let image = s
        .complete_acquire(AcquireOutcome::Image { image_index: 1 })
        .unwrap();
    assert_eq!(image, 1);
    let cmds = s.record_commands();
    assert_eq!(cmds.len(), 6);
    let submit = s.complete_record(true).unwrap();
    assert_eq!(submit.signal_fence_slot, 0);
    let present = s.complete_submit(true).unwrap();
    assert_eq!(present.image_index, 1);
    assert!(s.slots[0].in_flight);
    s.complete_present(PresentOutcome::Presented).unwrap();
    assert_eq!(s.current_frame, 0);
    assert_eq!(s.phase, Phase::Ready);
}

#[test]
fn out_of_date_acquire_is_fatal() {
    // Two frames succeed; the third acquisition reports the surface out of
    // date, which is fatal: no further frame is issued and teardown still
    // runs cleanly, its idle wait first.
    let mut s = FrameScheduler::new(2, 3, extent()).unwrap();
    run_frame(&mut s, 0);
    run_frame(&mut s, 1);
    let _slot = s.begin_frame();
    let err = s.complete_acquire(AcquireOutcome::OutOfDate).unwrap_err();
    assert_eq!(err, RenderError::AcquireOutOfDate);
    assert_eq!(s.phase, Phase::Failed);
    let plan = s.shutdown();
    assert_eq!(plan[0], frame_scheduler::teardown::TeardownStep::WaitIdle);
    assert_eq!(plan.len(), 9 + 3 * 2 + 2 * 3);
    assert_eq!(s.phase, Phase::Finished);
    assert_eq!(in_flight_count(&s), 0);
}

#[test]
fn acquire_timeout_is_fatal() {
    let mut s = FrameScheduler::new(2, 3, extent()).unwrap();
    s.begin_frame();
    let err = s.complete_acquire(AcquireOutcome::Timeout).unwrap_err();
    assert_eq!(err, RenderError::AcquireTimeout);
    assert_eq!(s.phase, Phase::Failed);
}

#[test]
fn record_failure_is_fatal() {
    let mut s = FrameScheduler::new(2, 3, extent()).unwrap();
    s.begin_frame();
    s.complete_acquire(AcquireOutcome::Image { image_index: 0 })
        .unwrap();
    let err = s.complete_record(false).unwrap_err();
    assert_eq!(err, RenderError::RecordFailed);
    assert_eq!(s.phase, Phase::Failed);
}

#[test]
fn submit_failure_is_fatal_and_leaves_slot_idle() {
    let mut s = FrameScheduler::new(2, 3, extent()).unwrap();
    s.begin_frame();
    s.complete_acquire(AcquireOutcome::Image { image_index: 0 })
        .unwrap();
    s.complete_record(true).unwrap();
    let err = s.complete_submit(false).unwrap_err();
    assert_eq!(err, RenderError::SubmitFailed);
    assert_eq!(s.phase, Phase::Failed);
    assert_eq!(in_flight_count(&s), 0);
}

#[test]
fn out_of_date_present_is_fatal() {
    let mut s = FrameScheduler::new(2, 3, extent()).unwrap();
    s.begin_frame();
    s.complete_acquire(AcquireOutcome::Image { image_index: 2 })
        .unwrap();
    s.complete_record(true).unwrap();
    s.complete_submit(true).unwrap();
    let err = s.complete_present(PresentOutcome::OutOfDate).unwrap_err();
    assert_eq!(err, RenderError::PresentOutOfDate);
    assert_eq!(s.phase, Phase::Failed);
    // The frame did not complete: the slot index did not advance.
    assert_eq!(s.current_frame, 0);
}

#[test]
fn begin_frame_waits_out_the_reused_slot() {
    // With two slots, after two submissions both slots are in flight; the
    // wait at the start of the third frame clears the reused slot before its
    // command buffer is handed out for re-recording.
    let mut s = FrameScheduler::new(2, 4, extent()).unwrap();
    run_frame(&mut s, 0);
    run_frame(&mut s, 1);
    assert_eq!(in_flight_count(&s), 2);
    let slot = s.begin_frame();
    assert_eq!(slot, 0);
    assert!(!s.slots[0].in_flight);
    assert!(s.slots[1].in_flight);
}

#[test]
fn commands_use_image_index_not_slot() {
    // Slot 1 of the frame loop draws into image 2: the framebuffer bound in
    // the recorded commands is the image's, not the slot's.
    let mut s = FrameScheduler::new(2, 3, extent()).unwrap();
    run_frame(&mut s, 0);
    let slot = s.begin_frame();
    assert_eq!(slot, 1);
    s.complete_acquire(AcquireOutcome::Image { image_index: 2 })
        .unwrap();
    let cmds = s.record_commands();
    assert_eq!(
        cmds[0],
        RenderCommand::BeginRenderPass {
            framebuffer_index: 2,
            render_area: extent()
        }
    );
    assert_eq!(cmds[1], RenderCommand::BindPipeline);
    assert_eq!(cmds[2], RenderCommand::SetViewport { extent: extent() });
    assert_eq!(cmds[3], RenderCommand::SetScissor { extent: extent() });
    assert_eq!(
        cmds[4],
        RenderCommand::Draw {
            vertex_count: 3,
            instance_count: 1,
            first_vertex: 0,
            first_instance: 0
        }
    );
    assert_eq!(cmds[5], RenderCommand::EndRenderPass);
}

#[test]
fn many_frames_never_exceed_slot_bound() {
    let mut s = FrameScheduler::new(3, 4, extent()).unwrap();
    for k in 0..12usize {
        assert_eq!(s.current_frame, k % 3);
        run_frame(&mut s, k % 4);
        assert!(in_flight_count(&s) <= 3);
    }
    assert_eq!(s.current_frame, 0);
}
