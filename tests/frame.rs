use pilka_render::capture_plan::ImageLayout;
use pilka_render::frame::{
    compute_commands, compute_submission, graphics_submission, next_frame, on_acquire, on_present,
    AcquireDecision, AcquireResult, ComputeCommand, FrameImage, GraphicsCommand, PresentDecision,
    PresentResult, Semaphore,
};
use pilka_render::geometry::Extent;

#[test]
fn unpaused_compute_pass_is_empty_but_signals() {
    let s = compute_submission(false, Extent { width: 1280, height: 720 }, 1);
    assert!(s.commands.is_empty());
    assert_eq!(s.waits, vec![Semaphore::ImageAcquired]);
    assert_eq!(s.signals, vec![Semaphore::ComputeDone { pipeline: 1 }]);
}

#[test]
fn paused_compute_pass_feeds_back_and_dispatches() {
    let cmds = compute_commands(true, Extent { width: 1280, height: 721 });
    assert_eq!(cmds.len(), 9);
    assert_eq!(
        cmds[0],
        ComputeCommand::Transition { image: FrameImage::Present, from: ImageLayout::PresentSrc, to: ImageLayout::TransferSrc }
    );
    assert_eq!(cmds[2], ComputeCommand::BlitToPreviousFrame);
    assert_eq!(cmds[5], ComputeCommand::BindPipeline);
    assert_eq!(cmds[8], ComputeCommand::Dispatch { groups_x: 80, groups_y: 46, groups_z: 1 });
}

#[test]
fn graphics_pass_waits_on_compute_and_acquire() {
    let s = graphics_submission(2, &vec![1, 3]);
    assert_eq!(
        s.waits,
        vec![
            Semaphore::ComputeDone { pipeline: 1 },
            Semaphore::ComputeDone { pipeline: 3 },
            Semaphore::ImageAcquired
        ]
    );
    assert_eq!(s.signals, vec![Semaphore::RenderDone]);
    assert_eq!(s.commands.len(), 9);
    assert_eq!(s.commands[1], GraphicsCommand::BeginRenderPass { image_index: 2 });
    assert_eq!(s.commands[7], GraphicsCommand::Draw { vertex_count: 3, instance_count: 1 });
}

#[test]
fn acquire_decisions() {
    assert_eq!(
        on_acquire(AcquireResult::Acquired { image_index: 1, suboptimal: false }),
        AcquireDecision::Draw { image_index: 1 }
    );
    assert_eq!(
        on_acquire(AcquireResult::Acquired { image_index: 1, suboptimal: true }),
        AcquireDecision::ResizeAndSkip
    );
    assert_eq!(on_acquire(AcquireResult::OutOfDate), AcquireDecision::ResizeAndSkip);
    assert_eq!(on_acquire(AcquireResult::Suboptimal), AcquireDecision::ResizeAndSkip);
    assert_eq!(on_acquire(AcquireResult::Failed { code: -4 }), AcquireDecision::Fatal { code: -4 });
}

#[test]
fn present_decisions() {
    assert_eq!(on_present(PresentResult::Presented { suboptimal: false }), PresentDecision::Done);
    assert_eq!(on_present(PresentResult::Presented { suboptimal: true }), PresentDecision::Resize);
    assert_eq!(on_present(PresentResult::OutOfDate), PresentDecision::Resize);
    assert_eq!(on_present(PresentResult::Suboptimal), PresentDecision::Resize);
    assert_eq!(on_present(PresentResult::Failed { code: -3 }), PresentDecision::Fatal { code: -3 });
}

#[test]
fn frame_counter_wraps() {
    assert_eq!(next_frame(0), 1);
    assert_eq!(next_frame(u32::MAX), 0);
}
