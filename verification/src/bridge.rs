//! The verified half of the two subprocess bridges. The decoder bridge
//! presents an external decode process as a producer of fixed-size raw RGB24
//! frames; the encoder bridge presents an external encode process as a
//! consumer of them. What is proved here: the exact argument vectors the
//! external binary is driven with, the byte-exact classification of a frame
//! read (full frame, clean end of stream, truncation), and how an exit status
//! becomes an outcome. The pipes, the spawning and the waiting are the
//! caller's, outside this crate.

use vstd::prelude::*;
use vstd::string::StrSliceExecFns;
use vstd::string::StringExecFns;

use crate::errors::PipelineError;
use crate::frame::Frame;
use crate::probe::spec_trim;
use crate::probe::trim_str;
use crate::textfmt::fmt_dec;
use crate::textfmt::fmt_pad3;
use crate::textfmt::spec_dec;
use crate::textfmt::spec_pad3;

verus! {

/// The rescale filter argument, `scale=WIDTH:HEIGHT`.
pub open spec fn spec_scale_arg(width: u32, height: u32) -> Seq<char> {
    "scale="@ + spec_dec(width as int) + ":"@ + spec_dec(height as int)
}

/// The geometry argument of the encoder, `WIDTHxHEIGHT`.
pub open spec fn spec_size_arg(width: u32, height: u32) -> Seq<char> {
    spec_dec(width as int) + "x"@ + spec_dec(height as int)
}

/// A thousandths rate rendered with exactly three decimals, `N.NNN`.
pub open spec fn spec_rate_arg(fps_millis: u32) -> Seq<char> {
    spec_dec(fps_millis as int / 1000) + "."@ + spec_pad3(fps_millis as int % 1000)
}

/// The arguments that drive the external decode process: read `input`, map
/// the first video stream only (no audio, subtitle or data streams),
/// optionally rescale, disable output pacing, and emit raw headerless RGB24
/// on standard output.
pub open spec fn spec_decoder_args(input: Seq<char>, width: u32, height: u32, scale: bool) -> Seq<
    Seq<char>,
> {
    seq!["-hide_banner"@, "-loglevel"@, "error"@, "-i"@, input, "-map"@, "0:v:0"@, "-an"@, "-sn"@, "-dn"@]
        + (if scale {
        seq!["-vf"@, spec_scale_arg(width, height)]
    } else {
        Seq::empty()
    }) + seq!["-vsync"@, "0"@, "-f"@, "rawvideo"@, "-pix_fmt"@, "rgb24"@, "-"@]
}

/// The arguments that drive the external encode process: read raw RGB24
/// frames of the given fixed geometry and rate from standard input, and write
/// an H.264 file with 4:2:0 chroma at `output`, constant quality, fast
/// preset.
pub open spec fn spec_encoder_args(output: Seq<char>, width: u32, height: u32, fps_millis: u32) -> Seq<
    Seq<char>,
> {
    seq![
        "-hide_banner"@,
        "-loglevel"@,
        "error"@,
        "-y"@,
        "-f"@,
        "rawvideo"@,
        "-pix_fmt"@,
        "rgb24"@,
        "-video_size"@,
        spec_size_arg(width, height),
        "-framerate"@,
        spec_rate_arg(fps_millis),
        "-i"@,
        "-"@,
        "-an"@,
        "-sn"@,
        "-dn"@,
        "-c:v"@,
        "libx264"@,
        "-preset"@,
        "veryfast"@,
        "-crf"@,
        "23"@,
        "-pix_fmt"@,
        "yuv420p"@,
        output,
    ]
}

/// Builds the rescale filter argument.
fn scale_arg(width: u32, height: u32) -> (s: String)
    ensures
        s@ == spec_scale_arg(width, height),
{
    proof {
        reveal_strlit("scale=");
        reveal_strlit(":");
    }
    let mut s = String::from_str("scale=");
    let w = fmt_dec(width as u64);
    s.append(w.as_str());
    s.append(":");
    let h = fmt_dec(height as u64);
    s.append(h.as_str());
    s
}

/// Builds the encoder's geometry argument.
fn size_arg(width: u32, height: u32) -> (s: String)
    ensures
        s@ == spec_size_arg(width, height),
{
    proof {
        reveal_strlit("x");
    }
    let mut s = fmt_dec(width as u64);
    s.append("x");
    let h = fmt_dec(height as u64);
    s.append(h.as_str());
    s
}

/// Builds the encoder's rate argument with three decimals.
fn rate_arg(fps_millis: u32) -> (s: String)
    ensures
        s@ == spec_rate_arg(fps_millis),
{
    proof {
        reveal_strlit(".");
    }
    let mut s = fmt_dec(fps_millis as u64 / 1000);
    s.append(".");
    let f = fmt_pad3(fps_millis as u64 % 1000);
    s.append(f.as_str());
    s
}

/// The argument vector for spawning the external decode process on `input`,
/// rescaling to `width x height` when `scale` is set.
pub fn decoder_args(input: &str, width: u32, height: u32, scale: bool) -> (r: Vec<String>)
    ensures
        r.deep_view() == spec_decoder_args(input@, width, height, scale),
{
    let mut r: Vec<String> = Vec::new();
    r.push(String::from_str("-hide_banner"));
    r.push(String::from_str("-loglevel"));
    r.push(String::from_str("error"));
    r.push(String::from_str("-i"));
    r.push(String::from_str(input));
    r.push(String::from_str("-map"));
    r.push(String::from_str("0:v:0"));
    r.push(String::from_str("-an"));
    r.push(String::from_str("-sn"));
    r.push(String::from_str("-dn"));
    if scale {
        r.push(String::from_str("-vf"));
        r.push(scale_arg(width, height));
    }
    r.push(String::from_str("-vsync"));
    r.push(String::from_str("0"));
    r.push(String::from_str("-f"));
    r.push(String::from_str("rawvideo"));
    r.push(String::from_str("-pix_fmt"));
    r.push(String::from_str("rgb24"));
    r.push(String::from_str("-"));
    assert(r.deep_view() =~~= spec_decoder_args(input@, width, height, scale));
    r
}

/// The argument vector for spawning the external encode process writing
/// `output`.
pub fn encoder_args(output: &str, width: u32, height: u32, fps_millis: u32) -> (r: Vec<String>)
    ensures
        r.deep_view() == spec_encoder_args(output@, width, height, fps_millis),
{
    let mut r: Vec<String> = Vec::new();
    r.push(String::from_str("-hide_banner"));
    r.push(String::from_str("-loglevel"));
    r.push(String::from_str("error"));
    r.push(String::from_str("-y"));
    r.push(String::from_str("-f"));
    r.push(String::from_str("rawvideo"));
    r.push(String::from_str("-pix_fmt"));
    r.push(String::from_str("rgb24"));
    r.push(String::from_str("-video_size"));
    r.push(size_arg(width, height));
    r.push(String::from_str("-framerate"));
    r.push(rate_arg(fps_millis));
    r.push(String::from_str("-i"));
    r.push(String::from_str("-"));
    r.push(String::from_str("-an"));
    r.push(String::from_str("-sn"));
    r.push(String::from_str("-dn"));
    r.push(String::from_str("-c:v"));
    r.push(String::from_str("libx264"));
    r.push(String::from_str("-preset"));
    r.push(String::from_str("veryfast"));
    r.push(String::from_str("-crf"));
    r.push(String::from_str("23"));
    r.push(String::from_str("-pix_fmt"));
    r.push(String::from_str("yuv420p"));
    r.push(String::from_str(output));
    assert(r.deep_view() =~~= spec_encoder_args(output@, width, height, fps_millis));
    r
}

/// What one blocking read of a fixed-size frame yielded: `buf` was filled
/// with `bytes_read` bytes before the stream ended or the buffer was full.
/// A full buffer is the next frame; zero bytes is a clean end of stream at a
/// frame boundary; anything in between is a truncated stream.
pub fn frame_from_read(width: u32, height: u32, buf: Vec<u8>, bytes_read: usize) -> (r: Result<
    Option<Frame>,
    PipelineError,
>)
    requires
        buf@.len() == width * height * 3,
        bytes_read <= buf@.len(),
    ensures
        buf@.len() > 0 && bytes_read == buf@.len() ==> (r matches Ok(f) && f matches Some(fr)
            && fr == (Frame { width, height, data: buf }) && fr.wf()),
        bytes_read == 0 ==> (r matches Ok(f) && f is None),
        0 < bytes_read < buf@.len() ==> (r matches Err(e) && e matches
            PipelineError::TruncatedStream { got, expected } && got == bytes_read && expected
            == buf@.len()),
{
    let len = buf.len();
    if len > 0 && bytes_read == len {
        Ok(Some(Frame { width, height, data: buf }))
    } else if bytes_read == 0 {
        Ok(None)
    } else {
        Err(PipelineError::TruncatedStream { got: bytes_read, expected: len })
    }
}

/// What an external process's exit means: success is an `Ok`; a non-zero
/// status is an `ExternalProcess` error carrying the trimmed tail of the
/// diagnostic stream, for operator visibility.
pub fn process_exit_outcome(success: bool, diagnostic: &str) -> (r: Result<(), PipelineError>)
    ensures
        r is Ok <==> success,
        !success ==> (r matches Err(e) && e matches PipelineError::ExternalProcess(m) && m@
            == spec_trim(diagnostic@)),
{
    if success {
        Ok(())
    } else {
        let tail = trim_str(diagnostic);
        Err(PipelineError::ExternalProcess(String::from_str(tail)))
    }
}

} // verus!
