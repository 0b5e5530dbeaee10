use vstd::prelude::*;

use crate::capture_plan::ImageLayout;
use crate::geometry::{Extent, tile_count, tiles_covering};

verus! {

/// Edge of the square tile that one compute workgroup covers.
pub const COMPUTE_TILE: u32 = 16;

/// Vertices of the full-screen triangle that the graphics pass draws.
pub const FULL_SCREEN_VERTICES: u32 = 3;

/// The semaphores that order one frame's submissions.
#[derive(Clone, Copy, Debug, PartialEq, Eq, Structural)]
pub enum Semaphore {
    /// Signalled when the presentable image has been acquired.
    ImageAcquired,
    /// Signalled when the compute pipeline at this index has finished.
    ComputeDone { pipeline: usize },
    /// Signalled when the graphics pass has finished.
    RenderDone,
}

/// What acquiring the next presentable image reported.
#[derive(Clone, Copy, Debug, PartialEq, Eq, Structural)]
pub enum AcquireResult {
    Acquired { image_index: u32, suboptimal: bool },
    OutOfDate,
    Suboptimal,
    Failed { code: i32 },
}

/// What the frame does after acquiring.
#[derive(Clone, Copy, Debug, PartialEq, Eq, Structural)]
pub enum AcquireDecision {
    /// Draw into the acquired image.
    Draw { image_index: u32 },
    /// The swapchain is stale: resize and draw nothing this frame.
    ResizeAndSkip,
    /// An error the engine cannot recover from.
    Fatal { code: i32 },
}

/// How a frame goes on after each acquire result.
pub open spec fn acquire_decision_of(r: AcquireResult) -> AcquireDecision {
    match r {
        AcquireResult::Acquired { image_index, suboptimal } => if suboptimal {
            AcquireDecision::ResizeAndSkip
        } else {
            AcquireDecision::Draw { image_index }
        },
        AcquireResult::OutOfDate => AcquireDecision::ResizeAndSkip,
        AcquireResult::Suboptimal => AcquireDecision::ResizeAndSkip,
        AcquireResult::Failed { code } => AcquireDecision::Fatal { code },
    }
}

/// Decides how a frame goes on after acquiring: a stale swapchain is resized
/// and no partial frame is drawn against it.
pub fn on_acquire(r: AcquireResult) -> (d: AcquireDecision)
    ensures
        d == acquire_decision_of(r),
{
    match r {
        AcquireResult::Acquired { image_index, suboptimal } => if suboptimal {
            AcquireDecision::ResizeAndSkip
        } else {
            AcquireDecision::Draw { image_index }
        },
        AcquireResult::OutOfDate => AcquireDecision::ResizeAndSkip,
        AcquireResult::Suboptimal => AcquireDecision::ResizeAndSkip,
        AcquireResult::Failed { code } => AcquireDecision::Fatal { code },
    }
}

/// What presenting reported.
#[derive(Clone, Copy, Debug, PartialEq, Eq, Structural)]
pub enum PresentResult {
    Presented { suboptimal: bool },
    OutOfDate,
    Suboptimal,
    Failed { code: i32 },
}

/// What the frame does after presenting.
#[derive(Clone, Copy, Debug, PartialEq, Eq, Structural)]
pub enum PresentDecision {
    Done,
    Resize,
    Fatal { code: i32 },
}

/// What follows each present result.
pub open spec fn present_decision_of(r: PresentResult) -> PresentDecision {
    match r {
        PresentResult::Presented { suboptimal } => if suboptimal {
            PresentDecision::Resize
        } else {
            PresentDecision::Done
        },
        PresentResult::OutOfDate => PresentDecision::Resize,
        PresentResult::Suboptimal => PresentDecision::Resize,
        PresentResult::Failed { code } => PresentDecision::Fatal { code },
    }
}

/// Decides what follows a present: a stale swapchain is resized, any other
/// error is surfaced.
pub fn on_present(r: PresentResult) -> (d: PresentDecision)
    ensures
        d == present_decision_of(r),
{
    match r {
        PresentResult::Presented { suboptimal } => if suboptimal {
            PresentDecision::Resize
        } else {
            PresentDecision::Done
        },
        PresentResult::OutOfDate => PresentDecision::Resize,
        PresentResult::Suboptimal => PresentDecision::Resize,
        PresentResult::Failed { code } => PresentDecision::Fatal { code },
    }
}

/// The images that the compute pass touches besides its storage images.
#[derive(Clone, Copy, Debug, PartialEq, Eq, Structural)]
pub enum FrameImage {
    /// The presentable image acquired for this frame.
    Present,
    /// The feedback texture that holds the previous frame.
    PreviousFrame,
}

/// One command recorded into the compute command buffer.
#[derive(Clone, Copy, Debug, PartialEq, Eq, Structural)]
pub enum ComputeCommand {
    Transition { image: FrameImage, from: ImageLayout, to: ImageLayout },
    /// Blit the acquired image into the feedback texture.
    BlitToPreviousFrame,
    BindPipeline,
    PushConstants,
    BindDescriptorSets,
    Dispatch { groups_x: u32, groups_y: u32, groups_z: u32 },
}

/// The compute commands of one frame. Unpaused, there are none: the empty
/// command buffer is still submitted so that its semaphore is signalled.
/// Paused, the acquired image is first copied into the feedback texture, then
/// the pipeline runs over the output in 16 by 16 tiles.
pub open spec fn compute_commands_of(paused: bool, extent: Extent) -> Seq<ComputeCommand> {
    if !paused {
        seq![]
    } else {
        seq![
            ComputeCommand::Transition {
                image: FrameImage::Present,
                from: ImageLayout::PresentSrc,
                to: ImageLayout::TransferSrc,
            },
            ComputeCommand::Transition {
                image: FrameImage::PreviousFrame,
                from: ImageLayout::General,
                to: ImageLayout::TransferDst,
            },
            ComputeCommand::BlitToPreviousFrame,
            ComputeCommand::Transition {
                image: FrameImage::PreviousFrame,
                from: ImageLayout::TransferDst,
                to: ImageLayout::General,
            },
            ComputeCommand::Transition {
                image: FrameImage::Present,
                from: ImageLayout::TransferSrc,
                to: ImageLayout::PresentSrc,
            },
            ComputeCommand::BindPipeline,
            ComputeCommand::PushConstants,
            ComputeCommand::BindDescriptorSets,
            ComputeCommand::Dispatch {
                groups_x: tiles_covering(extent.width as int, COMPUTE_TILE as int) as u32,
                groups_y: tiles_covering(extent.height as int, COMPUTE_TILE as int) as u32,
                groups_z: 1,
            },
        ]
    }
}

/// Builds the compute commands of one frame.
pub fn compute_commands(paused: bool, extent: Extent) -> (r: Vec<ComputeCommand>)
    ensures
        r@ == compute_commands_of(paused, extent),
{
    let mut r: Vec<ComputeCommand> = Vec::new();
    if paused {
        r.push(
            ComputeCommand::Transition {
                image: FrameImage::Present,
                from: ImageLayout::PresentSrc,
                to: ImageLayout::TransferSrc,
            },
        );
        r.push(
            ComputeCommand::Transition {
                image: FrameImage::PreviousFrame,
                from: ImageLayout::General,
                to: ImageLayout::TransferDst,
            },
        );
        r.push(ComputeCommand::BlitToPreviousFrame);
        r.push(
            ComputeCommand::Transition {
                image: FrameImage::PreviousFrame,
                from: ImageLayout::TransferDst,
                to: ImageLayout::General,
            },
        );
        r.push(
            ComputeCommand::Transition {
                image: FrameImage::Present,
                from: ImageLayout::TransferSrc,
                to: ImageLayout::PresentSrc,
            },
        );
        r.push(ComputeCommand::BindPipeline);
        r.push(ComputeCommand::PushConstants);
        r.push(ComputeCommand::BindDescriptorSets);
        let gx = tile_count(extent.width, COMPUTE_TILE);
        let gy = tile_count(extent.height, COMPUTE_TILE);
        r.push(ComputeCommand::Dispatch { groups_x: gx, groups_y: gy, groups_z: 1 });
    }
    assert(r@ =~= compute_commands_of(paused, extent));
    r
}

/// One queue submission: its commands, what it waits on and what it signals.
#[derive(Debug)]
pub struct Submission<C> {
    pub commands: Vec<C>,
    pub waits: Vec<Semaphore>,
    pub signals: Vec<Semaphore>,
}

/// The compute submission of one frame, for the compute pipeline at
/// `pipeline`: it waits for the acquired image and signals that pipeline's
/// completion semaphore, whether or not it holds commands.
pub fn compute_submission(paused: bool, extent: Extent, pipeline: usize) -> (r: Submission<
    ComputeCommand,
>)
    ensures
        r.commands@ == compute_commands_of(paused, extent),
        r.waits@ == seq![Semaphore::ImageAcquired],
        r.signals@ == seq![Semaphore::ComputeDone { pipeline }],
{
    let commands = compute_commands(paused, extent);
    let waits = vec![Semaphore::ImageAcquired];
    let signals = vec![Semaphore::ComputeDone { pipeline }];
    assert(waits@ =~= seq![Semaphore::ImageAcquired]);
    assert(signals@ =~= seq![Semaphore::ComputeDone { pipeline }]);
    Submission { commands, waits, signals }
}

/// One command recorded into the graphics command buffer.
#[derive(Clone, Copy, Debug, PartialEq, Eq, Structural)]
pub enum GraphicsCommand {
    /// Make the compute pass's writes to the feedback texture visible.
    PreviousFrameBarrier,
    BeginRenderPass { image_index: u32 },
    BindPipeline,
    SetViewport,
    SetScissor,
    BindDescriptorSets,
    PushConstants,
    Draw { vertex_count: u32, instance_count: u32 },
    EndRenderPass,
}

/// The graphics commands of one frame: one render pass that draws the
/// full-screen triangle with no vertex or index buffer.
pub open spec fn graphics_commands_of(image_index: u32) -> Seq<GraphicsCommand> {
    seq![
        GraphicsCommand::PreviousFrameBarrier,
        GraphicsCommand::BeginRenderPass { image_index },
        GraphicsCommand::BindPipeline,
        GraphicsCommand::SetViewport,
        GraphicsCommand::SetScissor,
        GraphicsCommand::BindDescriptorSets,
        GraphicsCommand::PushConstants,
        GraphicsCommand::Draw { vertex_count: FULL_SCREEN_VERTICES, instance_count: 1 },
        GraphicsCommand::EndRenderPass,
    ]
}

/// What the graphics pass waits on: the completion of every compute pipeline,
/// then the acquired image.
pub open spec fn graphics_waits_of(compute_pipelines: Seq<usize>) -> Seq<Semaphore> {
    Seq::new(compute_pipelines.len(), |i: int| Semaphore::ComputeDone { pipeline: compute_pipelines[i] })
        .push(Semaphore::ImageAcquired)
}

/// The graphics submission of one frame into the acquired image.
pub fn graphics_submission(image_index: u32, compute_pipelines: &Vec<usize>) -> (r: Submission<
    GraphicsCommand,
>)
    ensures
        r.commands@ == graphics_commands_of(image_index),
        r.waits@ == graphics_waits_of(compute_pipelines@),
        r.signals@ == seq![Semaphore::RenderDone],
{
    let commands = vec![
        GraphicsCommand::PreviousFrameBarrier,
        GraphicsCommand::BeginRenderPass { image_index },
        GraphicsCommand::BindPipeline,
        GraphicsCommand::SetViewport,
        GraphicsCommand::SetScissor,
        GraphicsCommand::BindDescriptorSets,
        GraphicsCommand::PushConstants,
        GraphicsCommand::Draw { vertex_count: FULL_SCREEN_VERTICES, instance_count: 1 },
        GraphicsCommand::EndRenderPass,
    ];
    let mut waits: Vec<Semaphore> = Vec::new();
    let mut i: usize = 0;
    while i < compute_pipelines.len()
        invariant
            0 <= i <= compute_pipelines@.len(),
            waits@ == Seq::new(
                i as nat,
                |k: int| Semaphore::ComputeDone { pipeline: compute_pipelines@[k] },
            ),
        decreases compute_pipelines@.len() - i,
    {
        waits.push(Semaphore::ComputeDone { pipeline: compute_pipelines[i] });
        i = i + 1;
        assert(waits@ =~= Seq::new(
            i as nat,
            |k: int| Semaphore::ComputeDone { pipeline: compute_pipelines@[k] },
        ));
    }
    waits.push(Semaphore::ImageAcquired);
    let signals = vec![Semaphore::RenderDone];
    assert(commands@ =~= graphics_commands_of(image_index));
    assert(waits@ =~= graphics_waits_of(compute_pipelines@));
    assert(signals@ =~= seq![Semaphore::RenderDone]);
    Submission { commands, waits, signals }
}

/// The frame counter after a frame: it counts on and wraps at the top.
pub open spec fn next_frame_of(frame: u32) -> u32 {
    if frame == u32::MAX {
        0
    } else {
        (frame + 1) as u32
    }
}

/// Advances the frame counter by one frame.
pub fn next_frame(frame: u32) -> (r: u32)
    ensures
        r == next_frame_of(frame),
{
    frame.wrapping_add(1)
}

} // verus!
