use pilka_render::capture::{
    capture_extent, capture_format, needs_two_step, plan_realloc, ChannelOrder, ColorFormat,
    NumericKind, Realloc, ScreenshotCtx, needs_remap,
};
use pilka_render::capture_plan::{capture_commands, readable_image, CaptureCommand, CaptureImage, ImageLayout};
use pilka_render::geometry::{return_aligned, tile_count, Extent};
use pilka_render::readback::{read_back, ReadbackError, SubresourceLayout};

#[test]
fn read_back_strips_row_padding() {
    // 2x3 pixels, rows padded to 12 bytes, starting at offset 4.
    let width = 2u32;
    let pitch = 12usize;
    let offset = 4usize;
    let mut data = vec![0xEEu8; offset + 3 * pitch];
    for y in 0..3 {
        for x in 0..8 {
            data[offset + y * pitch + x] = (y * 8 + x) as u8;
        }
    }
    let layout = SubresourceLayout { offset: offset as u64, size: (3 * pitch) as u64, row_pitch: pitch as u64 };
    let frame = read_back(&data, layout, width).unwrap();
    assert_eq!(frame.width, 2);
    assert_eq!(frame.height, 3);
    assert_eq!(frame.pixels.len(), 2 * 3 * 4);
    let expected: Vec<u8> = (0u8..24).collect();
    assert_eq!(frame.pixels, expected);
}

#[test]
fn read_back_tight_rows_is_identity() {
    let data: Vec<u8> = (0..64u8).collect();
    let layout = SubresourceLayout { offset: 0, size: 64, row_pitch: 16 };
    let frame = read_back(&data, layout, 4).unwrap();
    assert_eq!(frame.height, 4);
    assert_eq!(frame.pixels, data);
}

#[test]
fn read_back_rejects_short_pitch() {
    let data = vec![0u8; 64];
    let layout = SubresourceLayout { offset: 0, size: 64, row_pitch: 12 };
    assert_eq!(read_back(&data, layout, 4).unwrap_err(), ReadbackError::RowPitchTooSmall);
    let zero = SubresourceLayout { offset: 0, size: 64, row_pitch: 0 };
    assert_eq!(read_back(&data, zero, 4).unwrap_err(), ReadbackError::RowPitchTooSmall);
}

#[test]
fn read_back_rejects_small_mapping() {
    let data = vec![0u8; 60];
    let layout = SubresourceLayout { offset: 0, size: 64, row_pitch: 16 };
    assert_eq!(read_back(&data, layout, 4).unwrap_err(), ReadbackError::MappingTooSmall);
}

#[test]
fn read_back_rejects_too_many_rows() {
    let data = vec![0u8; 16];
    let layout = SubresourceLayout { offset: 0, size: u64::MAX, row_pitch: 1 };
    assert_eq!(read_back(&data, layout, 0).unwrap_err(), ReadbackError::TooManyRows);
}

#[test]
fn read_back_empty_layout() {
    let data: Vec<u8> = Vec::new();
    let layout = SubresourceLayout { offset: 0, size: 0, row_pitch: 16 };
    let frame = read_back(&data, layout, 4).unwrap();
    assert_eq!(frame.height, 0);
    assert!(frame.pixels.is_empty());
}

#[test]
fn capture_height_rounds_to_even() {
    assert_eq!(capture_extent(Extent { width: 5, height: 7 }), Extent { width: 5, height: 8 });
    assert_eq!(capture_extent(Extent { width: 5, height: 8 }), Extent { width: 5, height: 8 });
    assert_eq!(capture_extent(Extent { width: 1, height: 0 }), Extent { width: 1, height: 0 });
}

#[test]
fn aligned_values() {
    assert_eq!(return_aligned(17, 16), 32);
    assert_eq!(return_aligned(32, 16), 32);
    assert_eq!(return_aligned(0, 16), 0);
    assert_eq!(return_aligned(u32::MAX, 1), u32::MAX);
    assert_eq!(tile_count(1280, 16), 80);
    assert_eq!(tile_count(721, 16), 46);
    assert_eq!(tile_count(u32::MAX, 16), 268435456);
    assert_eq!(tile_count(0, 16), 0);
}

#[test]
fn two_step_only_when_blit_needs_optimal_tiling() {
    assert!(needs_two_step(0, 0x800));
    assert!(!needs_two_step(0x800, 0x800));
    assert!(!needs_two_step(0x800, 0));
    assert!(!needs_two_step(0, 0));
    assert!(needs_two_step(0x7ff, 0xfff));
}

#[test]
fn capture_format_keeps_numeric_kind() {
    let bgra_srgb = ColorFormat::FourChannel8 { order: ChannelOrder::Bgra, kind: NumericKind::Srgb };
    assert_eq!(
        capture_format(bgra_srgb),
        ColorFormat::FourChannel8 { order: ChannelOrder::Rgba, kind: NumericKind::Srgb }
    );
    let bgra_unorm = ColorFormat::FourChannel8 { order: ChannelOrder::Bgra, kind: NumericKind::Unorm };
    assert_eq!(
        capture_format(bgra_unorm),
        ColorFormat::FourChannel8 { order: ChannelOrder::Rgba, kind: NumericKind::Unorm }
    );
    assert_eq!(
        capture_format(ColorFormat::Other),
        ColorFormat::FourChannel8 { order: ChannelOrder::Rgba, kind: NumericKind::Unorm }
    );
}

#[test]
fn realloc_only_on_size_change() {
    let current = Extent { width: 4, height: 4 };
    assert_eq!(plan_realloc(current, Extent { width: 4, height: 4 }), Realloc::Keep);
    // An odd height rounds up to the size the images already have.
    assert_eq!(plan_realloc(current, Extent { width: 4, height: 3 }), Realloc::Keep);
    assert_eq!(
        plan_realloc(current, Extent { width: 2, height: 2 }),
        Realloc::Recreate { extent: Extent { width: 2, height: 2 } }
    );
    assert_eq!(
        plan_realloc(current, Extent { width: 8, height: 5 }),
        Realloc::Recreate { extent: Extent { width: 8, height: 6 } }
    );
}

#[test]
fn remap_only_when_new_memory_is_larger() {
    assert!(needs_remap(65, 64));
    // Exactly the mapped size: the mapping is kept.
    assert!(!needs_remap(64, 64));
    assert!(!needs_remap(0, 64));
    assert!(needs_remap(1, 0));
}

#[test]
fn capture_command_lists() {
    let direct = capture_commands(false);
    assert_eq!(direct.len(), 5);
    assert_eq!(direct[2], CaptureCommand::Blit { src: CaptureImage::Present, dst: CaptureImage::Target });
    assert_eq!(
        direct[3],
        CaptureCommand::Transition { image: CaptureImage::Target, from: ImageLayout::TransferDst, to: ImageLayout::General }
    );
    let two = capture_commands(true);
    assert_eq!(two.len(), 8);
    assert_eq!(two[5], CaptureCommand::Copy { src: CaptureImage::Target, dst: CaptureImage::Staging });
    assert_eq!(
        two[6],
        CaptureCommand::Transition { image: CaptureImage::Staging, from: ImageLayout::TransferDst, to: ImageLayout::General }
    );
    assert_eq!(readable_image(false), CaptureImage::Target);
    assert_eq!(readable_image(true), CaptureImage::Staging);
}

#[test]
fn both_capture_paths_read_the_same_bytes() {
    // Simulate the command lists on image contents: 0 stale, 1 frame, 2 converted.
    for two_step in [false, true] {
        let mut content = [1u8, 0, 0]; // present, target, staging
        let idx = |i: CaptureImage| match i {
            CaptureImage::Present => 0,
            CaptureImage::Target => 1,
            CaptureImage::Staging => 2,
        };
        for c in capture_commands(two_step) {
            match c {
                CaptureCommand::Transition { image, from, .. } => {
                    if from == ImageLayout::Undefined {
                        content[idx(image)] = 0;
                    }
                }
                CaptureCommand::Blit { src, dst } => {
                    content[idx(dst)] = if content[idx(src)] == 1 { 2 } else { 0 };
                }
                CaptureCommand::Copy { src, dst } => content[idx(dst)] = content[idx(src)],
            }
        }
        assert_eq!(content[idx(readable_image(two_step))], 2);
        assert_eq!(content[0], 1);
    }
    // The host side is the same function on either path.
    let data: Vec<u8> = (0..48u8).collect();
    let layout = SubresourceLayout { offset: 0, size: 48, row_pitch: 16 };
    let a = read_back(&data, layout, 3).unwrap();
    let b = read_back(&data, layout, 3).unwrap();
    assert_eq!(a.pixels, b.pixels);
}

#[test]
fn screenshot_context_tracks_size_and_mapping() {
    let surface = ColorFormat::FourChannel8 { order: ChannelOrder::Bgra, kind: NumericKind::Srgb };
    let mut ctx = ScreenshotCtx::init(Extent { width: 3, height: 5 }, surface, 0, 0x800, 96);
    assert_eq!(ctx.extent(), Extent { width: 3, height: 6 });
    assert!(ctx.is_two_step());
    assert_eq!(ctx.format(), ColorFormat::FourChannel8 { order: ChannelOrder::Rgba, kind: NumericKind::Srgb });
    assert_eq!(ctx.readable(), CaptureImage::Staging);
    assert_eq!(ctx.commands().len(), 8);
    assert_eq!(ctx.realloc(Extent { width: 3, height: 6 }), Realloc::Keep);
    assert_eq!(
        ctx.realloc(Extent { width: 4, height: 7 }),
        Realloc::Recreate { extent: Extent { width: 4, height: 8 } }
    );
    assert!(ctx.needs_remap(128));
    ctx.set_mapped_len(128);
    assert!(!ctx.needs_remap(128));
    assert_eq!(ctx.realloc(Extent { width: 4, height: 8 }), Realloc::Keep);
    // Rows of 4 pixels padded to 20 bytes.
    let mut mapped = vec![0u8; 8 * 20];
    for y in 0..8 {
        for x in 0..16 {
            mapped[y * 20 + x] = (y * 16 + x) as u8;
        }
    }
    let layout = SubresourceLayout { offset: 0, size: 160, row_pitch: 20 };
    let frame = ctx.read(&mapped, layout).unwrap();
    assert_eq!((frame.width, frame.height), (4, 8));
    let expected: Vec<u8> = (0..128u8).collect();
    assert_eq!(frame.pixels, expected);
}
