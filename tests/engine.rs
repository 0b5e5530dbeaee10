use pilka_render::capture::{ChannelOrder, ColorFormat, NumericKind, Realloc};
use pilka_render::capture_plan::CaptureImage;
use pilka_render::device_info::{api_version, device_name_len, vendor_name, version_name, ApiVersion, DeviceInfo, DeviceType};
use pilka_render::engine::{FramePlan, PilkaRender};
use pilka_render::fft::{FftError, UploadCommand, FFT_SIZE};
use pilka_render::frame::{AcquireDecision, AcquireResult, PresentDecision, PresentResult, Semaphore};
use pilka_render::geometry::Extent;
use pilka_render::pipeline::ShaderInfo;
use pilka_render::push_constant::PushConstant;
use pilka_render::readback::SubresourceLayout;
use pilka_render::screen::{Scissor, ScreenTexture, Viewport};
use pilka_render::teardown::{teardown_order, Resource};

fn device() -> DeviceInfo {
    DeviceInfo { name: "Test GPU".to_string(), device_type: DeviceType::DiscreteGpu, vendor_id: 0x10DE }
}

fn engine(width: u32, height: u32) -> PilkaRender<u32, u32> {
    let pc = PushConstant::new((width as f32).to_bits(), (height as f32).to_bits());
    let mapped = width as u64 * height as u64 * 4;
    let surface = ColorFormat::FourChannel8 { order: ChannelOrder::Bgra, kind: NumericKind::Unorm };
    PilkaRender::new(Extent { width, height }, device(), surface, 0x800, 0x800, mapped, pc)
}

fn info(path: &str) -> ShaderInfo {
    ShaderInfo { path: path.as_bytes().to_vec(), entry_point: b"main".to_vec() }
}

#[test]
fn end_to_end_three_frames_then_capture() {
    let mut e = engine(1280, 720);
    e.push_render_pipeline(info("shader.vert"), info("shader.frag"), &vec![], Ok(10)).unwrap();
    e.push_compute_pipeline(info("shader.comp"), &vec![], Ok(20)).unwrap();
    assert!(!e.paused());
    for i in 0..3u32 {
        let d = e.on_acquire(AcquireResult::Acquired { image_index: i % 2, suboptimal: false });
        assert_eq!(d, AcquireDecision::Draw { image_index: i % 2 });
        let compute = e.compute_pass();
        assert!(compute.commands.is_empty());
        assert_eq!(compute.signals, vec![Semaphore::ComputeDone { pipeline: 1 }]);
        let graphics = e.graphics_pass(i % 2);
        assert_eq!(graphics.waits, vec![Semaphore::ComputeDone { pipeline: 1 }, Semaphore::ImageAcquired]);
        assert_eq!(e.finish_frame(PresentResult::Presented { suboptimal: false }), PresentDecision::Done);
    }
    assert_eq!(e.push_constant().frame, 3);
    // The capture images were made at construction for this size.
    let plan = e.prepare_capture();
    assert_eq!(plan.realloc, Realloc::Keep);
    assert_eq!(plan.readable, CaptureImage::Target);
    assert_eq!(plan.commands.len(), 5);
    assert_eq!(
        e.capture_format(),
        ColorFormat::FourChannel8 { order: ChannelOrder::Rgba, kind: NumericKind::Unorm }
    );
    // The device pads every row to 5376 bytes.
    let pitch = 5376usize;
    let mapped = vec![0x80u8; pitch * 720];
    let layout = SubresourceLayout { offset: 0, size: (pitch * 720) as u64, row_pitch: pitch as u64 };
    let frame = e.capture_frame(&mapped, layout).unwrap();
    assert_eq!((frame.width, frame.height), (1280, 720));
    assert_eq!(frame.pixels.len(), 1280 * 720 * 4);
    // After a resize the capture images follow; memory larger than the
    // current mapping needs a new one.
    e.resize(Extent { width: 1920, height: 1081 });
    assert_eq!(
        e.prepare_capture().realloc,
        Realloc::Recreate { extent: Extent { width: 1920, height: 1082 } }
    );
    assert!(e.needs_remap(1920 * 1082 * 4));
    assert!(!e.needs_remap(1280 * 720 * 4));
    assert_eq!(e.prepare_capture().realloc, Realloc::Keep);
}

#[test]
fn paused_frame_dispatches_over_tiles() {
    let mut e = engine(1280, 720);
    e.set_paused(true);
    let compute = e.compute_pass();
    assert_eq!(compute.commands.len(), 9);
    assert_eq!(
        compute.commands[8],
        pilka_render::frame::ComputeCommand::Dispatch { groups_x: 80, groups_y: 45, groups_z: 1 }
    );
}

#[test]
fn resize_twice_gives_same_geometry() {
    let mut e = engine(800, 600);
    let a = e.resize(Extent { width: 1024, height: 768 });
    let b = e.resize(Extent { width: 1024, height: 768 });
    assert_eq!(a.extent, b.extent);
    assert_eq!(a.viewport, b.viewport);
    assert_eq!(a.scissor, b.scissor);
    assert_eq!(
        b.viewport,
        Viewport { x: 0, y: 768, width: 1024, height: -768, min_depth: 0, max_depth: 1 }
    );
    assert_eq!(b.scissor, Scissor { x: 0, y: 0, extent: Extent { width: 1024, height: 768 } });
    assert_eq!(
        b.recreate,
        vec![
            ScreenTexture::PreviousFrame,
            ScreenTexture::Generic,
            ScreenTexture::Dummy,
            ScreenTexture::Float1,
            ScreenTexture::Float2
        ]
    );
    assert_eq!(e.extent(), Extent { width: 1024, height: 768 });
}

#[test]
fn fft_update_of_configured_width() {
    let mut e = engine(64, 64);
    let samples: Vec<u32> = (0..FFT_SIZE as u32).map(|i| (i as f32 * 0.5).to_bits()).collect();
    let first = e.update_fft_texture(&samples).unwrap();
    assert!(!first.wait_for_previous);
    assert_eq!(
        first.commands,
        vec![
            UploadCommand::ToTransferDst,
            UploadCommand::CopyBufferToImage { width: 2048 },
            UploadCommand::ToGeneral
        ]
    );
    let second = e.update_fft_texture(&samples).unwrap();
    assert!(second.wait_for_previous);
}

#[test]
fn fft_update_of_other_width_is_rejected() {
    let mut e = engine(64, 64);
    let short = vec![0u32; 1024];
    assert_eq!(
        e.update_fft_texture(&short).unwrap_err(),
        FftError::LengthMismatch { expected: 2048, got: 1024 }
    );
    let long = vec![0u32; 2049];
    assert_eq!(
        e.update_fft_texture(&long).unwrap_err(),
        FftError::LengthMismatch { expected: 2048, got: 2049 }
    );
    assert!(e.update_fft_texture(&[]).is_err());
}

#[test]
fn device_queries() {
    let e = engine(64, 64);
    assert_eq!(e.get_vendor_name(), "NVIDIA Corporation");
    assert_eq!(e.get_device_name(), "Test GPU");
    assert_eq!(e.get_device_type(), DeviceType::DiscreteGpu);
    assert_eq!(vendor_name(0x1002), "AMD");
    assert_eq!(vendor_name(0x8086), "INTEL Corporation");
    assert_eq!(vendor_name(0x1234), "Unknown vendor");
    assert_eq!(api_version(None), ApiVersion { major: 1, minor: 0, patch: 0 });
    let packed = (1u32 << 22) | (2 << 12) | 170;
    assert_eq!(api_version(Some(packed)), ApiVersion { major: 1, minor: 2, patch: 170 });
    assert_eq!(e.get_vulkan_version_name(Some(packed)), "1.2.170");
    assert_eq!(e.get_vulkan_version_name(None), "1.0.0");
    assert_eq!(
        version_name(ApiVersion { major: 1023, minor: 0, patch: 4095 }),
        "1023.0.4095"
    );
}

#[test]
fn stale_swapchain_skips_frame() {
    let e = engine(64, 64);
    assert_eq!(e.on_acquire(AcquireResult::OutOfDate), AcquireDecision::ResizeAndSkip);
}

#[test]
fn teardown_runs_in_dependency_order() {
    let order = teardown_order();
    assert_eq!(order.len(), 14);
    assert_eq!(order[0], Resource::GraphicsDescriptorLayouts);
    assert_eq!(order[2], Resource::DescriptorPool);
    assert_eq!(order[9], Resource::ScreenshotContext);
    assert_eq!(order[10], Resource::PipelineCache);
    assert_eq!(order[13], Resource::Framebuffers);
}

#[test]
fn render_plans_a_frame() {
    let mut e = engine(320, 240);
    e.push_render_pipeline(info("a.vert"), info("a.frag"), &vec![], Ok(1)).unwrap();
    e.push_compute_pipeline(info("a.comp"), &vec![], Ok(2)).unwrap();
    match e.render(AcquireResult::Acquired { image_index: 2, suboptimal: false }) {
        FramePlan::Draw { image_index, compute, graphics } => {
            assert_eq!(image_index, 2);
            assert!(compute.commands.is_empty());
            assert_eq!(compute.waits, vec![Semaphore::ImageAcquired]);
            assert_eq!(compute.signals, vec![Semaphore::ComputeDone { pipeline: 1 }]);
            assert_eq!(graphics.waits, vec![Semaphore::ComputeDone { pipeline: 1 }, Semaphore::ImageAcquired]);
            assert_eq!(graphics.signals, vec![Semaphore::RenderDone]);
        }
        other => panic!("a drawn frame expected, got {:?}", other),
    }
    assert!(matches!(
        e.render(AcquireResult::Acquired { image_index: 0, suboptimal: true }),
        FramePlan::Resize
    ));
    assert!(matches!(e.render(AcquireResult::Failed { code: -4 }), FramePlan::Fatal { code: -4 }));
    e.set_paused(true);
    match e.render(AcquireResult::Acquired { image_index: 0, suboptimal: false }) {
        FramePlan::Draw { compute, .. } => assert_eq!(compute.commands.len(), 9),
        other => panic!("a drawn frame expected, got {:?}", other),
    }
}

#[test]
fn device_name_ends_at_first_zero() {
    assert_eq!(device_name_len(b"GPU\0\0junk"), 3);
    assert_eq!(device_name_len(b"\0abc"), 0);
    assert_eq!(device_name_len(b"full"), 4);
    assert_eq!(device_name_len(&[]), 0);
}
