use pilka_render::push_constant::{PushConstant, PUSH_CONSTANT_SIZE};
use pilka_render::screenshot::{encode_screenshot, ScreenshotError};
use pilka_render::readback::CapturedFrame;

#[test]
fn push_constant_layout_is_little_endian_words() {
    let mut pc = PushConstant::new(1.0f32.to_bits(), 2.0f32.to_bits());
    pc.frame = 0x0102_0304;
    pc.mouse_pressed = 1;
    let bytes = pc.as_slice();
    assert_eq!(bytes.len(), PUSH_CONSTANT_SIZE);
    assert_eq!(&bytes[0..16], &[0u8; 16]);
    assert_eq!(&bytes[16..20], &1.0f32.to_le_bytes());
    assert_eq!(&bytes[20..24], &2.0f32.to_le_bytes());
    assert_eq!(&bytes[32..36], &[1, 0, 0, 0]);
    assert_eq!(&bytes[36..40], &[4, 3, 2, 1]);
}

#[test]
fn push_constant_round_trip() {
    let pc = PushConstant {
        pos: [1.5f32.to_bits(), (-2.0f32).to_bits(), 3.25f32.to_bits()],
        time: 12.5f32.to_bits(),
        wh: [1280.0f32.to_bits(), 720.0f32.to_bits()],
        mouse: [0.25f32.to_bits(), (-0.75f32).to_bits()],
        mouse_pressed: 1,
        frame: 99,
    };
    let back = PushConstant::from_bytes(&pc.as_slice()).unwrap();
    assert_eq!(back.pos, pc.pos);
    assert_eq!(back.time, pc.time);
    assert_eq!(back.wh, pc.wh);
    assert_eq!(back.mouse, pc.mouse);
    assert_eq!(back.mouse_pressed, 1);
    assert_eq!(back.frame, 99);
    assert!(PushConstant::from_bytes(&[0u8; 39]).is_none());
}

#[test]
fn screenshot_encodes_png() {
    let frame = CapturedFrame { pixels: vec![255u8; 2 * 2 * 4], width: 2, height: 2 };
    let png = encode_screenshot(&frame).unwrap();
    assert_eq!(&png[0..8], &[137, 80, 78, 71, 13, 10, 26, 10]);
    assert_ne!(png, frame.pixels);
    let odd = CapturedFrame { pixels: vec![7u8; 3 * 1 * 4], width: 3, height: 1 };
    assert!(encode_screenshot(&odd).is_ok());
}

#[test]
fn screenshot_errors() {
    let empty = CapturedFrame { pixels: vec![], width: 0, height: 2 };
    assert_eq!(encode_screenshot(&empty).unwrap_err(), ScreenshotError::EmptyFrame);
    let short = CapturedFrame { pixels: vec![0u8; 12], width: 2, height: 2 };
    assert_eq!(encode_screenshot(&short).unwrap_err(), ScreenshotError::SizeMismatch);
}
