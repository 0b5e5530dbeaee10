use vstd::prelude::*;

use crate::capture_plan::{capture_commands, capture_commands_of, CaptureCommand, CaptureImage,
    readable_image, readable_image_of};
use crate::geometry::{align_up, Extent, return_aligned};
use crate::readback::{is_packed, layout_rows, read_back, readback_error, CapturedFrame,
    ReadbackError, SubresourceLayout};

verus! {


/// The format-feature bit that allows an image of a format to be a blit target.
pub const FORMAT_FEATURE_BLIT_DST: u32 = 0x800;

/// How the four 8-bit channels of a colour format are stored.
#[derive(Clone, Copy, Debug, PartialEq, Eq, Structural)]
pub enum ChannelOrder {
    Bgra,
    Rgba,
}

/// How the 8-bit channel values of a colour format are read.
#[derive(Clone, Copy, Debug, PartialEq, Eq, Structural)]
pub enum NumericKind {
    Unorm,
    Snorm,
    Uscaled,
    Sscaled,
    Uint,
    Sint,
    Srgb,
}

/// A colour format as the capture path sees it.
#[derive(Clone, Copy, Debug, PartialEq, Eq, Structural)]
pub enum ColorFormat {
    /// Four 8-bit channels in the given order.
    FourChannel8 { order: ChannelOrder, kind: NumericKind },
    /// Any other format.
    Other,
}

/// The format a frame is captured in: RGBA with 8 bits per channel, keeping
/// the numeric kind of a four-channel 8-bit surface format (unorm otherwise).
pub open spec fn capture_format_of(surface: ColorFormat) -> ColorFormat {
    match surface {
        ColorFormat::FourChannel8 { order: _, kind } => ColorFormat::FourChannel8 {
            order: ChannelOrder::Rgba,
            kind,
        },
        ColorFormat::Other => ColorFormat::FourChannel8 {
            order: ChannelOrder::Rgba,
            kind: NumericKind::Unorm,
        },
    }
}

/// Chooses the format that the blit converts a presented frame into.
pub fn capture_format(surface: ColorFormat) -> (r: ColorFormat)
    ensures
        r == capture_format_of(surface),
{
    match surface {
        ColorFormat::FourChannel8 { order: _, kind } => ColorFormat::FourChannel8 {
            order: ChannelOrder::Rgba,
            kind,
        },
        ColorFormat::Other => ColorFormat::FourChannel8 {
            order: ChannelOrder::Rgba,
            kind: NumericKind::Unorm,
        },
    }
}

/// Whether a feature bit set holds every bit of `feature`.
pub open spec fn has_feature(flags: u32, feature: u32) -> bool {
    flags & feature == feature
}

/// The capture needs an intermediate image when the destination format can be
/// a blit target only with optimal tiling, not with the linear tiling that a
/// host-readable image must have.
pub open spec fn two_step_needed(linear_features: u32, optimal_features: u32) -> bool {
    !has_feature(linear_features, FORMAT_FEATURE_BLIT_DST) && has_feature(
        optimal_features,
        FORMAT_FEATURE_BLIT_DST,
    )
}

/// Decides once, from the format's feature bits, whether capture takes the
/// two-step path.
pub fn needs_two_step(linear_features: u32, optimal_features: u32) -> (r: bool)
    ensures
        r == two_step_needed(linear_features, optimal_features),
{
    let blit_linear = linear_features & FORMAT_FEATURE_BLIT_DST == FORMAT_FEATURE_BLIT_DST;
    let blit_optimal = optimal_features & FORMAT_FEATURE_BLIT_DST == FORMAT_FEATURE_BLIT_DST;
    !blit_linear && blit_optimal
}

/// The size of the capture images for a frame of the given size: the height
/// is rounded up to an even number, which some encoders require.
pub open spec fn capture_extent_of(frame: Extent) -> Extent {
    Extent { width: frame.width, height: align_up(frame.height as int, 2) as u32 }
}

/// Computes the size of the capture images for a frame of the given size.
pub fn capture_extent(frame: Extent) -> (r: Extent)
    requires
        frame.height < u32::MAX,
    ensures
        r == capture_extent_of(frame),
        r.height % 2 == 0,
{
    Extent { width: frame.width, height: return_aligned(frame.height, 2) }
}

/// What the capture images must become before the next capture.
#[derive(Clone, Copy, Debug, PartialEq, Eq, Structural)]
pub enum Realloc {
    /// The images already have the right size.
    Keep,
    /// Destroy and recreate the images at `extent`.
    Recreate { extent: Extent },
}

/// What the capture images need for a frame of size `requested`, given their
/// current size.
pub open spec fn realloc_of(current: Extent, requested: Extent) -> Realloc {
    let target = capture_extent_of(requested);
    if target == current {
        Realloc::Keep
    } else {
        Realloc::Recreate { extent: target }
    }
}

/// Decides whether the capture images are reallocated: only when the size
/// they need differs from the size they have.
pub fn plan_realloc(current: Extent, requested: Extent) -> (r: Realloc)
    requires
        requested.height < u32::MAX,
    ensures
        r == realloc_of(current, requested),
{
    let target = capture_extent(requested);
    if target == current {
        Realloc::Keep
    } else {
        Realloc::Recreate { extent: target }
    }
}

/// The host mapping is replaced exactly when the memory of a recreated
/// readable image is larger than what is mapped now.
pub open spec fn remap_needed(new_size: u64, mapped_len: u64) -> bool {
    new_size > mapped_len
}

/// Decides whether the host mapping is replaced for a new allocation of
/// `new_size` bytes.
pub fn needs_remap(new_size: u64, mapped_len: u64) -> (r: bool)
    ensures
        r == remap_needed(new_size, mapped_len),
{
    new_size > mapped_len
}

/// Whatever the surface format, frames are captured as four 8-bit channels
/// in RGBA order, so a captured frame has four bytes per pixel.
pub proof fn lemma_capture_format_is_rgba8(surface: ColorFormat)
    ensures
        capture_format_of(surface) matches ColorFormat::FourChannel8 { order, .. }
            && order == ChannelOrder::Rgba,
{
}

/// The capture context: the size and format of the capture images, the path
/// that the device requires, and the length of the host mapping of the image
/// that the host reads.
pub struct ScreenshotCtx {
    extent: Extent,
    format: ColorFormat,
    two_step: bool,
    mapped_len: u64,
}

impl ScreenshotCtx {
    /// The size of the capture images.
    pub closed spec fn size(&self) -> Extent {
        self.extent
    }

    /// The format the capture images hold.
    pub closed spec fn dst_format(&self) -> ColorFormat {
        self.format
    }

    /// Whether capture copies through an intermediate image.
    pub closed spec fn two_step(&self) -> bool {
        self.two_step
    }

    /// The length of the host mapping.
    pub closed spec fn mapped_len(&self) -> u64 {
        self.mapped_len
    }

    /// The context for frames of size `frame` on a surface of format
    /// `surface`, whose capture format has the given feature bits with linear
    /// and optimal tiling; the readable image is mapped over `mapped_len`
    /// bytes.
    pub fn init(
        frame: Extent,
        surface: ColorFormat,
        linear_features: u32,
        optimal_features: u32,
        mapped_len: u64,
    ) -> (r: ScreenshotCtx)
        requires
            frame.height < u32::MAX,
        ensures
            r.size() == capture_extent_of(frame),
            r.dst_format() == capture_format_of(surface),
            r.two_step() == two_step_needed(linear_features, optimal_features),
            r.mapped_len() == mapped_len,
    {
        ScreenshotCtx {
            extent: capture_extent(frame),
            format: capture_format(surface),
            two_step: needs_two_step(linear_features, optimal_features),
            mapped_len,
        }
    }

    /// Brings the capture images to the size for frames of size `frame`,
    /// and says what the device must do for that.
    pub fn realloc(&mut self, frame: Extent) -> (r: Realloc)
        requires
            frame.height < u32::MAX,
        ensures
            r == realloc_of(old(self).size(), frame),
            final(self).size() == capture_extent_of(frame),
            final(self).dst_format() == old(self).dst_format(),
            final(self).two_step() == old(self).two_step(),
            final(self).mapped_len() == old(self).mapped_len(),
    {
        let r = plan_realloc(self.extent, frame);
        self.extent = capture_extent(frame);
        r
    }

    /// Whether a recreated readable image whose memory takes `new_size`
    /// bytes needs a new host mapping.
    pub fn needs_remap(&self, new_size: u64) -> (r: bool)
        ensures
            r == remap_needed(new_size, self.mapped_len()),
    {
        needs_remap(new_size, self.mapped_len)
    }

    /// Records the length of a new host mapping.
    pub fn set_mapped_len(&mut self, len: u64)
        ensures
            final(self).mapped_len() == len,
            final(self).size() == old(self).size(),
            final(self).dst_format() == old(self).dst_format(),
            final(self).two_step() == old(self).two_step(),
    {
        self.mapped_len = len;
    }

    /// The format the capture images hold.
    pub fn format(&self) -> (r: ColorFormat)
        ensures
            r == self.dst_format(),
    {
        self.format
    }

    /// Whether capture copies through an intermediate image.
    pub fn is_two_step(&self) -> (r: bool)
        ensures
            r == self.two_step(),
    {
        self.two_step
    }

    /// The size of the capture images.
    pub fn extent(&self) -> (r: Extent)
        ensures
            r == self.size(),
    {
        self.extent
    }

    /// The commands of one capture on this context's path.
    pub fn commands(&self) -> (r: Vec<CaptureCommand>)
        ensures
            r@ == capture_commands_of(self.two_step()),
    {
        capture_commands(self.two_step)
    }

    /// The image whose memory the host reads.
    pub fn readable(&self) -> (r: CaptureImage)
        ensures
            r == readable_image_of(self.two_step()),
    {
        readable_image(self.two_step)
    }

    /// Reads the captured frame out of the mapped readable image: rows of the
    /// capture width, as many as the device layout holds, padding stripped.
    pub fn read(&self, mapped: &[u8], layout: SubresourceLayout) -> (r: Result<
        CapturedFrame,
        ReadbackError,
    >)
        ensures
            match r {
                Ok(frame) => {
                    &&& readback_error(mapped@.len() as int, layout, self.size().width as int) is None
                    &&& frame.width == self.size().width
                    &&& frame.height == layout_rows(layout)
                    &&& frame.pixels@.len() == frame.width * frame.height * 4
                    &&& is_packed(
                        frame.pixels@,
                        mapped@,
                        layout.offset as int,
                        layout.row_pitch as int,
                        frame.width as int,
                        frame.height as int,
                    )
                },
                Err(e) => readback_error(mapped@.len() as int, layout, self.size().width as int)
                    == Some(e),
            },
    {
        read_back(mapped, layout, self.extent.width)
    }
}

} // verus!
