use framepipe::color::yuyv_to_rgb;
use framepipe::errors::PipelineError;
use framepipe::frame::frame_size;
use framepipe::frame::Frame;

#[test]
fn black_macropixel_converts_to_black() {
    let yuyv = vec![16u8, 128, 16, 128];
    let frame = yuyv_to_rgb(2, 1, &yuyv).unwrap();
    assert_eq!(frame.width, 2);
    assert_eq!(frame.height, 1);
    assert_eq!(frame.data, vec![0u8, 0, 0, 0, 0, 0]);
}

#[test]
fn white_point_saturates() {
    let yuyv = vec![235u8, 128, 235, 128];
    let frame = yuyv_to_rgb(2, 1, &yuyv).unwrap();
    assert_eq!(frame.data, vec![255u8, 255, 255, 255, 255, 255]);
}

#[test]
fn red_macropixel_converts_exactly() {
    // Y = 81, U = 90, V = 240 is the BT.601 encoding of pure red:
    // R = (298*65 + 409*112 + 128) >> 8 = 255 (saturated),
    // G = (298*65 - 100*(-38) - 208*112 + 128) >> 8 = 0,
    // B = (298*65 + 516*(-38) + 128) >> 8 clamps below zero.
    let yuyv = vec![81u8, 90, 81, 240];
    let frame = yuyv_to_rgb(2, 1, &yuyv).unwrap();
    assert_eq!(frame.data, vec![255u8, 0, 0, 255, 0, 0]);
}

#[test]
fn converted_frame_has_exact_buffer_length() {
    let yuyv = vec![128u8; 8 * 4 * 2];
    let frame = yuyv_to_rgb(8, 4, &yuyv).unwrap();
    assert_eq!(frame.data.len(), 8 * 4 * 3);
    assert_eq!(frame.raw().len(), 8 * 4 * 3);
}

#[test]
fn oversized_input_is_accepted() {
    let yuyv = vec![128u8; 100];
    let frame = yuyv_to_rgb(2, 1, &yuyv).unwrap();
    assert_eq!(frame.data.len(), 6);
}

#[test]
fn short_buffer_is_a_size_error() {
    let yuyv = vec![16u8, 128, 16, 128];
    let err = yuyv_to_rgb(2, 2, &yuyv).unwrap_err();
    assert!(matches!(err, PipelineError::Size { got: 4, expected: 8 }));
    assert_eq!(err.kind(), "size");
}

#[test]
fn frame_size_multiplies_and_overflows() {
    assert_eq!(frame_size(2, 2), Some(12));
    assert_eq!(frame_size(640, 480), Some(921600));
    assert_eq!(frame_size(0x10000, 0x10000), None);
    assert_eq!(frame_size(u32::MAX, u32::MAX), None);
}

#[test]
fn from_raw_requires_the_exact_length() {
    assert!(Frame::from_raw(2, 2, vec![0u8; 12]).is_some());
    assert!(Frame::from_raw(2, 2, vec![0u8; 11]).is_none());
    assert!(Frame::from_raw(2, 2, vec![0u8; 13]).is_none());
    let f = Frame::from_raw(3, 1, vec![1u8; 9]).unwrap();
    assert_eq!(f.width(), 3);
    assert_eq!(f.height(), 1);
}
