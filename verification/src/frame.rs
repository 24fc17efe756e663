//! The `Frame` data type: an owned, exactly-sized buffer of interleaved 8-bit
//! RGB samples, row-major with no padding, together with its dimensions. The
//! byte layout `width * height * 3` is the wire contract with both external
//! codec processes.

use vstd::prelude::*;

verus! {

/// An uncompressed RGB24 frame. Invariant: `data` holds exactly
/// `width * height * 3` bytes, interleaved R, G, B, row-major.
#[derive(Debug)]
pub struct Frame {
    pub width: u32,
    pub height: u32,
    pub data: Vec<u8>,
}

impl Frame {
    /// The byte-layout invariant of every frame the pipeline exchanges.
    pub open spec fn wf(self) -> bool {
        self.data@.len() == self.width * self.height * 3
    }

    /// Wraps an exactly-sized raw buffer as a frame; rejects any other length.
    pub fn from_raw(width: u32, height: u32, data: Vec<u8>) -> (r: Option<Frame>)
        ensures
            r is Some <==> data@.len() == width * height * 3,
            r matches Some(f) ==> f == (Frame { width, height, data }) && f.wf(),
    {
        proof {
            assert((width as int) * (height as int) * 3 <= (u32::MAX as int) * (u32::MAX as int)
                * 3) by (nonlinear_arith)
                requires
                    width <= u32::MAX,
                    height <= u32::MAX,
            ;
        }
        if width as u128 * height as u128 * 3 == data.len() as u128 {
            Some(Frame { width, height, data })
        } else {
            None
        }
    }

    pub fn width(&self) -> (r: u32)
        ensures
            r == self.width,
    {
        self.width
    }

    pub fn height(&self) -> (r: u32)
        ensures
            r == self.height,
    {
        self.height
    }

    /// The raw bytes, exactly as they are written to an encoder's pipe.
    pub fn raw(&self) -> (r: &Vec<u8>)
        ensures
            r == &self.data,
    {
        &self.data
    }
}

/// The byte-layout law of the wire format: every well-formed frame — every
/// frame a constructor of this crate hands out — holds exactly
/// `width * height * 3` bytes.
pub proof fn lemma_frame_buffer_size(f: Frame)
    requires
        f.wf(),
    ensures
        f.data@.len() == f.width * f.height * 3,
{
}

/// The number of bytes in one raw RGB24 frame of the given dimensions,
/// if `width * height * 3` fits the 32-bit arithmetic the bridges use.
pub fn frame_size(width: u32, height: u32) -> (r: Option<usize>)
    ensures
        r is Some <==> width * height * 3 <= u32::MAX,
        r matches Some(s) ==> s == width * height * 3,
{
    match width.checked_mul(height) {
        Some(px) => match px.checked_mul(3) {
            Some(bytes) => Some(bytes as usize),
            None => None,
        },
        None => None,
    }
}

} // verus!
