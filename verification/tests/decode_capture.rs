use framepipe::decode::decode_frame_to_rgb8;
use framepipe::decode::validate_camera_frame;
use framepipe::decode::PIXEL_TYPE_RGB8_PACKED;
use framepipe::errors::PipelineError;

const YUYV: [u8; 4] = [89, 85, 89, 86];
const MJPG: [u8; 4] = [77, 74, 80, 71];
const BAD: [u8; 4] = [82, 71, 66, 65];

#[test]
fn packed_capture_goes_through_the_fixed_point_transform() {
    let yuyv = vec![16u8, 128, 16, 128];
    let frame = decode_frame_to_rgb8(2, 1, YUYV, &yuyv).unwrap();
    assert_eq!(frame.width, 2);
    assert_eq!(frame.height, 1);
    assert_eq!(frame.data, vec![0u8; 6]);
}

#[test]
fn compressed_capture_is_decoded_with_its_own_geometry() {
    // Encode a solid mid-grey 8x4 image, then decode it through the library.
    let raw = vec![128u8; 8 * 4 * 3];
    let mut jpeg: Vec<u8> = Vec::new();
    let mut encoder = image::codecs::jpeg::JpegEncoder::new_with_quality(&mut jpeg, 100);
    encoder
        .encode(&raw, 8, 4, image::ExtendedColorType::Rgb8)
        .unwrap();

    // The configured geometry is deliberately wrong: the decoded frame must
    // carry the image's own dimensions, not the camera's.
    let frame = decode_frame_to_rgb8(640, 480, MJPG, &jpeg).unwrap();
    assert_eq!(frame.width, 8);
    assert_eq!(frame.height, 4);
    assert_eq!(frame.data.len(), 8 * 4 * 3);
    for byte in &frame.data {
        assert!((*byte as i32 - 128).abs() <= 8, "decoded sample far from grey: {byte}");
    }
}

#[test]
fn undecodable_bytes_are_an_error() {
    let garbage = vec![1u8, 2, 3, 4, 5];
    let err = decode_frame_to_rgb8(2, 2, MJPG, &garbage).unwrap_err();
    assert!(matches!(err, PipelineError::Io(_)));
}

#[test]
fn unknown_pixel_format_is_rejected() {
    let bytes = vec![0u8; 16];
    let err = decode_frame_to_rgb8(2, 2, BAD, &bytes).unwrap_err();
    assert!(matches!(err, PipelineError::Io(_)));
}

#[test]
fn camera_payload_is_truncated_to_the_frame() {
    let buffer = vec![9u8; 2 * 2 * 3 + 5];
    let frame = validate_camera_frame(2, 2, buffer, PIXEL_TYPE_RGB8_PACKED).unwrap();
    assert_eq!(frame.data.len(), 12);
}

#[test]
fn camera_payload_must_be_rgb24() {
    let buffer = vec![9u8; 12];
    let err = validate_camera_frame(2, 2, buffer, 0x1).unwrap_err();
    assert!(matches!(err, PipelineError::Io(_)));
}

#[test]
fn short_camera_payload_is_a_size_error() {
    let buffer = vec![9u8; 11];
    let err = validate_camera_frame(2, 2, buffer, PIXEL_TYPE_RGB8_PACKED).unwrap_err();
    assert!(matches!(err, PipelineError::Size { got: 11, expected: 12 }));
}
