//! Colorspace conversion for the uncompressed camera path: packed 4:2:2
//! luma/chroma macropixels to interleaved RGB24, in fixed-point BT.601
//! arithmetic. Each 4-byte macropixel `(Y0, U, Y1, V)` yields two RGB pixels
//! that share the chroma pair `(U, V)`. The integer constants, the `+ 128`
//! rounding bias, the arithmetic shift by 8 (flooring division by 256) and the
//! final saturation are the output-parity contract and are reproduced exactly.

use vstd::prelude::*;

use crate::errors::PipelineError;
use crate::frame::Frame;

verus! {

/// Saturation of an integer to the 8-bit range.
pub open spec fn spec_clamp8(x: int) -> u8 {
    if x < 0 {
        0
    } else if x > 255 {
        255
    } else {
        x as u8
    }
}

/// The red channel of one luma sample: `clamp8((298*C + 409*E + 128) >> 8)`
/// with `C = Y - 16`, `E = V - 128`. `/ 256` is the arithmetic right shift.
pub open spec fn spec_yuv_r(y: u8, v: u8) -> u8 {
    spec_clamp8((298 * (y - 16) + 409 * (v - 128) + 128) / 256)
}

/// The green channel: `clamp8((298*C - 100*D - 208*E + 128) >> 8)` with
/// `D = U - 128`.
pub open spec fn spec_yuv_g(y: u8, u: u8, v: u8) -> u8 {
    spec_clamp8((298 * (y - 16) - 100 * (u - 128) - 208 * (v - 128) + 128) / 256)
}

/// The blue channel: `clamp8((298*C + 516*D + 128) >> 8)`.
pub open spec fn spec_yuv_b(y: u8, u: u8) -> u8 {
    spec_clamp8((298 * (y - 16) + 516 * (u - 128) + 128) / 256)
}

/// The rounding shift and saturation shared by all three channels: floor the
/// biased sum by 256, clamp to `[0, 255]`.
fn shift_clamp(t: i32) -> (r: u8)
    ensures
        r == spec_clamp8(t as int / 256),
{
    if t < 0 {
        assert(t as int / 256 < 0) by {
            assert(t as int / 256 <= -1) by (nonlinear_arith)
                requires
                    t < 0,
            ;
        }
        0
    } else {
        let q: u32 = (t as u32) / 256;
        if q > 255 {
            255
        } else {
            q as u8
        }
    }
}

/// Converts one luma sample and its shared chroma pair to an RGB triple,
/// bit-exactly as the fixed-point formulas state.
pub fn yuv_to_rgb(y: u8, u: u8, v: u8) -> (rgb: (u8, u8, u8))
    ensures
        rgb.0 == spec_yuv_r(y, v),
        rgb.1 == spec_yuv_g(y, u, v),
        rgb.2 == spec_yuv_b(y, u),
{
    let c: i32 = y as i32 - 16;
    let d: i32 = u as i32 - 128;
    let e: i32 = v as i32 - 128;
    let r = shift_clamp(298 * c + 409 * e + 128);
    let g = shift_clamp(298 * c - 100 * d - 208 * e + 128);
    let b = shift_clamp(298 * c + 516 * d + 128);
    (r, g, b)
}

/// Pixel `p` (0-based, macropixel order) of `out` holds the converted value of
/// its luma sample in `yuyv`, with the chroma pair of macropixel `p / 2`.
pub open spec fn spec_pixel_ok(yuyv: Seq<u8>, out: Seq<u8>, p: int) -> bool {
    let base = 4 * (p / 2);
    let y = yuyv[base + 2 * (p % 2)];
    let u = yuyv[base + 1];
    let v = yuyv[base + 3];
    &&& out[3 * p] == spec_yuv_r(y, v)
    &&& out[3 * p + 1] == spec_yuv_g(y, u, v)
    &&& out[3 * p + 2] == spec_yuv_b(y, u)
}

/// Converts a packed 4:2:2 buffer to an exactly-sized RGB24 frame.
///
/// Succeeds if and only if the input holds at least `width * height * 2`
/// bytes; a smaller buffer is a `Size` error carrying both lengths. On
/// success, every output pixel satisfies the conversion formulas.
pub fn yuyv_to_rgb(width: u32, height: u32, yuyv: &Vec<u8>) -> (r: Result<Frame, PipelineError>)
    requires
        (width * height) % 2 == 0,
        width * height * 2 <= u32::MAX,
        width * height * 3 <= usize::MAX,
    ensures
        r is Ok <==> yuyv@.len() >= width * height * 2,
        r matches Ok(f) ==> {
            &&& f.width == width
            &&& f.height == height
            &&& f.wf()
            &&& forall|p: int|
                0 <= p < width * height ==> #[trigger] spec_pixel_ok(yuyv@, f.data@, p)
        },
        r matches Err(e) ==> (e matches PipelineError::Size { got, expected }
            && got == yuyv@.len() && expected == width * height * 2),
{
    let px_total: u32 = width * height;
    let expected: u32 = px_total * 2;
    if yuyv.len() < expected as usize {
        return Err(PipelineError::Size { got: yuyv.len(), expected: expected as usize });
    }

    let mp_total: u32 = px_total / 2;
    let mut out: Vec<u8> = Vec::new();
    let mut mi: u32 = 0;
    while mi < mp_total
        invariant
            px_total == width * height,
            px_total % 2 == 0,
            mp_total == px_total / 2,
            px_total * 2 <= u32::MAX,
            px_total * 3 <= usize::MAX,
            yuyv@.len() >= px_total * 2,
            0 <= mi <= mp_total,
            out@.len() == 6 * mi,
            forall|p: int| 0 <= p < 2 * mi ==> #[trigger] spec_pixel_ok(yuyv@, out@, p),
        decreases mp_total - mi,
    {
        let si: usize = 4 * mi as usize;
        assert(si + 3 < yuyv@.len());
        let y0 = yuyv[si];
        let u = yuyv[si + 1];
        let y1 = yuyv[si + 2];
        let v = yuyv[si + 3];

        let (r0, g0, b0) = yuv_to_rgb(y0, u, v);
        let (r1, g1, b1) = yuv_to_rgb(y1, u, v);

        let ghost prev = out@;
        out.push(r0);
        out.push(g0);
        out.push(b0);
        out.push(r1);
        out.push(g1);
        out.push(b1);

        proof {
            assert(out@ =~= prev + seq![r0, g0, b0, r1, g1, b1]);
            let m = mi as int;
            assert((2 * m) / 2 == m && (2 * m) % 2 == 0);
            assert((2 * m + 1) / 2 == m && (2 * m + 1) % 2 == 1);
            assert(spec_pixel_ok(yuyv@, out@, 2 * m));
            assert(spec_pixel_ok(yuyv@, out@, 2 * m + 1));
            assert forall|p: int| 0 <= p < 2 * (m + 1) implies #[trigger] spec_pixel_ok(
                yuyv@,
                out@,
                p,
            ) by {
                if p < 2 * m {
                    assert(spec_pixel_ok(yuyv@, prev, p));
                    assert(out@[3 * p] == prev[3 * p]);
                    assert(out@[3 * p + 1] == prev[3 * p + 1]);
                    assert(out@[3 * p + 2] == prev[3 * p + 2]);
                }
            }
        }
        mi = mi + 1;
    }

    assert(out@.len() == px_total * 3);
    Ok(Frame { width, height, data: out })
}

} // verus!
