use vstd::prelude::*;

use crate::readback::CapturedFrame;

verus! {

#[verifier::external_type_specification]
#[verifier::external_body]
pub struct ExEncodingError(png::EncodingError);

/// The PNG file that the png crate writes for RGBA pixels of 8 bits per
/// channel; it depends on the pixels and the size alone.
pub uninterp spec fn png_rgba8_of(pixels: Seq<u8>, width: u32, height: u32) -> Seq<u8>;

/// Relies on png's `Encoder` (RGBA, 8-bit depth) writing into a vector:
/// `write_header` refuses a zero width or height, `write_image_data` refuses
/// data whose length is not `width * height * 4` (a size it computes in
/// `usize`), and the file is complete once the writer is dropped. Nothing
/// else can fail: writing into a vector does not.
#[verifier::external_body]
fn encode_rgba8(pixels: &[u8], width: u32, height: u32) -> (r: Result<Vec<u8>, png::EncodingError>)
    requires
        width * height * 4 <= usize::MAX,
    ensures
        width == 0 || height == 0 || pixels@.len() != width * height * 4 ==> r is Err,
        width > 0 && height > 0 && pixels@.len() == width * height * 4 ==> r is Ok,
        r matches Ok(bytes) ==> bytes@ == png_rgba8_of(pixels@, width, height),
{
    let mut out: Vec<u8> = Vec::new();
    {
        let mut encoder = png::Encoder::new(&mut out, width, height);
        encoder.set_color(png::ColorType::RGBA);
        encoder.set_depth(png::BitDepth::Eight);
        let mut writer = encoder.write_header()?;
        writer.write_image_data(pixels)?;
    }
    Ok(out)
}

/// Why a captured frame was not turned into a PNG file.
#[derive(Clone, Copy, Debug, PartialEq, Eq, Structural)]
pub enum ScreenshotError {
    /// The frame has no pixel.
    EmptyFrame,
    /// The pixel buffer does not hold `width * height` RGBA pixels.
    SizeMismatch,
    /// The encoder failed; it does not on a frame that passes the two
    /// checks above.
    Encoding,
}

/// Encodes a captured frame as a PNG file (RGBA, 8 bits per channel).
pub fn encode_screenshot(frame: &CapturedFrame) -> (r: Result<Vec<u8>, ScreenshotError>)
    ensures
        frame.width == 0 || frame.height == 0 <==> r == Err::<Vec<u8>, ScreenshotError>(
            ScreenshotError::EmptyFrame,
        ),
        frame.width > 0 && frame.height > 0 && frame.pixels@.len() != frame.width * frame.height
            * 4 <==> r == Err::<Vec<u8>, ScreenshotError>(ScreenshotError::SizeMismatch),
        frame.width > 0 && frame.height > 0 && frame.pixels@.len() == frame.width * frame.height
            * 4 <==> r is Ok,
        r matches Ok(bytes) ==> bytes@ == png_rgba8_of(frame.pixels@, frame.width, frame.height),
{
    if frame.width == 0 || frame.height == 0 {
        return Err(ScreenshotError::EmptyFrame);
    }
    proof {
        assert(frame.width as int * frame.height as int <= u32::MAX as int * u32::MAX as int)
            by (nonlinear_arith);
    }
    let expected: u128 = frame.width as u128 * frame.height as u128 * 4;
    if frame.pixels.len() as u128 != expected {
        return Err(ScreenshotError::SizeMismatch);
    }
    match encode_rgba8(frame.pixels.as_slice(), frame.width, frame.height) {
        Ok(bytes) => Ok(bytes),
        Err(_) => Err(ScreenshotError::Encoding),
    }
}

} // verus!
