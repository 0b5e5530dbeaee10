use vstd::prelude::*;

verus! {

/// The device resources that the engine releases on shutdown.
#[derive(Clone, Copy, Debug, PartialEq, Eq, Structural)]
pub enum Resource {
    GraphicsDescriptorLayouts,
    ComputeDescriptorLayouts,
    DescriptorPool,
    FftTexture,
    FloatTexture2,
    FloatTexture1,
    PreviousFrameTexture,
    GenericTexture,
    DummyTexture,
    ScreenshotContext,
    PipelineCache,
    PresentSemaphore,
    RenderSemaphore,
    Framebuffers,
}

/// The order in which the engine's resources are destroyed: users of a
/// resource go before the resource they depend on.
pub open spec fn teardown_sequence() -> Seq<Resource> {
    seq![
        Resource::GraphicsDescriptorLayouts,
        Resource::ComputeDescriptorLayouts,
        Resource::DescriptorPool,
        Resource::FftTexture,
        Resource::FloatTexture2,
        Resource::FloatTexture1,
        Resource::PreviousFrameTexture,
        Resource::GenericTexture,
        Resource::DummyTexture,
        Resource::ScreenshotContext,
        Resource::PipelineCache,
        Resource::PresentSemaphore,
        Resource::RenderSemaphore,
        Resource::Framebuffers,
    ]
}

/// The explicit teardown sequence; run once, front to back.
pub fn teardown_order() -> (r: Vec<Resource>)
    ensures
        r@ == teardown_sequence(),
{
    let r = vec![
        Resource::GraphicsDescriptorLayouts,
        Resource::ComputeDescriptorLayouts,
        Resource::DescriptorPool,
        Resource::FftTexture,
        Resource::FloatTexture2,
        Resource::FloatTexture1,
        Resource::PreviousFrameTexture,
        Resource::GenericTexture,
        Resource::DummyTexture,
        Resource::ScreenshotContext,
        Resource::PipelineCache,
        Resource::PresentSemaphore,
        Resource::RenderSemaphore,
        Resource::Framebuffers,
    ];
    assert(r@ =~= teardown_sequence());
    r
}

} // verus!
