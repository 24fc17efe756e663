//! Decoding of one camera capture buffer into a `Frame`. A capture arrives
//! tagged with a four-character pixel-format code: the packed 4:2:2 format is
//! converted by this crate's own fixed-point transform, while compressed
//! frames go through the `image` crate's decoder behind a trusted wrapper.
//! The raw-format camera path validates an already-RGB24 payload instead.

use vstd::prelude::*;
use vstd::string::StringExecFns;

use crate::color::spec_pixel_ok;
use crate::color::yuyv_to_rgb;
use crate::errors::PipelineError;
use crate::frame::Frame;

verus! {

/// The four-character code of the packed 4:2:2 format, `YUYV`.
pub open spec fn spec_is_yuyv(fourcc: [u8; 4]) -> bool {
    fourcc[0] == 89 && fourcc[1] == 85 && fourcc[2] == 89 && fourcc[3] == 86
}

/// The four-character codes of compressed captures, `MJPG` and `JPEG`.
pub open spec fn spec_is_jpeg(fourcc: [u8; 4]) -> bool {
    ||| (fourcc[0] == 77 && fourcc[1] == 74 && fourcc[2] == 80 && fourcc[3] == 71)
    ||| (fourcc[0] == 74 && fourcc[1] == 80 && fourcc[2] == 69 && fourcc[3] == 71)
}

/// What the `image` crate's decoder yields for a byte buffer: the decoded
/// dimensions and the packed RGB24 samples, or nothing when the bytes are not
/// a decodable image. The result depends on the bytes alone.
pub uninterp spec fn decoded_rgb(bytes: Seq<u8>) -> Option<(u32, u32, Seq<u8>)>;

/// Relies on `image::load_from_memory` and `image::DynamicImage::to_rgb8`:
/// the format-guessing decode and the conversion to packed RGB24 are
/// functions of the input bytes alone, and an RGB image's buffer holds
/// exactly `width * height * 3` bytes.
#[verifier::external_body]
fn decode_image_rgb(bytes: &Vec<u8>) -> (r: Option<(u32, u32, Vec<u8>)>)
    ensures
        r is Some <==> decoded_rgb(bytes@) is Some,
        r matches Some(t) ==> decoded_rgb(bytes@) == Some((t.0, t.1, t.2@)),
        r matches Some(t) ==> t.2@.len() == t.0 * t.1 * 3,
{
    match image::load_from_memory(bytes) {
        Ok(img) => {
            let rgb = img.to_rgb8();
            let (w, h) = rgb.dimensions();
            Some((w, h, rgb.into_raw()))
        },
        Err(_) => None,
    }
}

/// Decodes one capture buffer into an RGB24 frame.
///
/// A packed 4:2:2 capture is converted sample by sample and keeps the
/// configured geometry; a compressed capture is decoded and carries its own.
/// Any other format code is rejected, as is a packed buffer shorter than the
/// geometry requires.
pub fn decode_frame_to_rgb8(width: u32, height: u32, fourcc: [u8; 4], bytes: &Vec<u8>) -> (r:
    Result<Frame, PipelineError>)
    requires
        spec_is_yuyv(fourcc) ==> (width * height) % 2 == 0,
        spec_is_yuyv(fourcc) ==> width * height * 2 <= u32::MAX,
        spec_is_yuyv(fourcc) ==> width * height * 3 <= usize::MAX,
    ensures
        spec_is_yuyv(fourcc) ==> {
            &&& (r is Ok <==> bytes@.len() >= width * height * 2)
            &&& (r matches Ok(f) ==> f.width == width && f.height == height && f.wf()
                && forall|p: int|
                0 <= p < width * height ==> #[trigger] spec_pixel_ok(bytes@, f.data@, p))
        },
        !spec_is_yuyv(fourcc) && spec_is_jpeg(fourcc) ==> {
            &&& (r is Ok <==> decoded_rgb(bytes@) is Some)
            &&& (r matches Ok(f) ==> decoded_rgb(bytes@) == Some(
                (f.width, f.height, f.data@),
            ) && f.wf())
            &&& (r matches Err(e) ==> e matches PipelineError::Io(_))
        },
        !spec_is_yuyv(fourcc) && !spec_is_jpeg(fourcc) ==> (r matches Err(e) && e matches
            PipelineError::Io(_)),
{
    if fourcc[0] == 89 && fourcc[1] == 85 && fourcc[2] == 89 && fourcc[3] == 86 {
        return yuyv_to_rgb(width, height, bytes);
    }
    let mjpg = fourcc[0] == 77 && fourcc[1] == 74 && fourcc[2] == 80 && fourcc[3] == 71;
    let jpeg = fourcc[0] == 74 && fourcc[1] == 80 && fourcc[2] == 69 && fourcc[3] == 71;
    if mjpg || jpeg {
        match decode_image_rgb(bytes) {
            Some(t) => {
                let (w, h, data) = t;
                return Ok(Frame { width: w, height: h, data });
            },
            None => {
                proof {
                    reveal_strlit("failed to decode MJPEG frame");
                }
                return Err(
                    PipelineError::Io(String::from_str("failed to decode MJPEG frame")),
                );
            },
        }
    }
    proof {
        reveal_strlit("unsupported camera pixel format (expected YUYV or MJPG)");
    }
    Err(
        PipelineError::Io(
            String::from_str("unsupported camera pixel format (expected YUYV or MJPG)"),
        ),
    )
}

/// The pixel-format code of a raw RGB24 industrial-camera payload.
pub const PIXEL_TYPE_RGB8_PACKED: u64 = 0x02180014;

/// Validates one raw capture from the industrial-camera path: the payload
/// must be tagged RGB24 and hold at least `width * height * 3` bytes; the
/// trailing transport padding is cut off.
pub fn validate_camera_frame(width: u32, height: u32, buffer: Vec<u8>, pixel_type: u64) -> (r:
    Result<Frame, PipelineError>)
    requires
        width * height * 3 <= usize::MAX,
    ensures
        r is Ok <==> (pixel_type == PIXEL_TYPE_RGB8_PACKED && buffer@.len() >= width * height * 3),
        r matches Ok(f) ==> (f.width == width && f.height == height && f.data@ == buffer@.subrange(
            0,
            width * height * 3,
        ) && f.wf()),
        pixel_type == PIXEL_TYPE_RGB8_PACKED && buffer@.len() < width * height * 3 ==> (r matches
            Err(e) && e matches PipelineError::Size { got, expected } && got == buffer@.len()
            && expected == width * height * 3),
        pixel_type != PIXEL_TYPE_RGB8_PACKED ==> (r matches Err(e) && e matches PipelineError::Io(
            _,
        )),
{
    if pixel_type != PIXEL_TYPE_RGB8_PACKED {
        proof {
            reveal_strlit("unsupported pixel format (expected RGB8Packed)");
        }
        return Err(
            PipelineError::Io(
                String::from_str("unsupported pixel format (expected RGB8Packed)"),
            ),
        );
    }
    proof {
        assert((width as int) * (height as int) * 3 <= (u32::MAX as int) * (u32::MAX as int) * 3)
            by (nonlinear_arith)
            requires
                width <= u32::MAX,
                height <= u32::MAX,
        ;
    }
    let wide: u128 = width as u128 * height as u128 * 3;
    let required: usize = wide as usize;
    assert(required == width * height * 3);
    let mut buffer = buffer;
    if buffer.len() < required {
        return Err(PipelineError::Size { got: buffer.len(), expected: required });
    }
    buffer.truncate(required);
    Ok(Frame { width, height, data: buffer })
}

} // verus!
