//! Decoded raster images as the pipeline sees them: an RGBA pixel buffer of
//! known dimensions, four bytes per pixel. Decoding the embedded asset bytes
//! happens at the process edge; this module checks that what arrived is a
//! well-formed buffer.

use crate::errors::ImageDecodeError;
use vstd::prelude::*;

verus! {

/// Whether `width`, `height` and a byte count describe a well-formed RGBA
/// buffer: non-zero dimensions and exactly four bytes per pixel.
pub open spec fn raw_image_well_formed(width: u32, height: u32, len: int) -> bool {
    &&& 1 <= width
    &&& 1 <= height
    &&& len == 4 * width * height
}

/// An RGBA, 8-bit-per-channel pixel buffer. Invariant: `data` holds exactly
/// `4 * width * height` bytes; constructed only through `from_raw`, which
/// establishes it.
#[derive(Debug)]
pub struct PixelBuffer {
    /// Width in pixels.
    pub width: u32,
    /// Height in pixels.
    pub height: u32,
    /// Row-major RGBA bytes, four per pixel.
    pub data: Vec<u8>,
}

impl PixelBuffer {
    /// The buffer's invariant.
    pub open spec fn wf(&self) -> bool {
        raw_image_well_formed(self.width, self.height, self.data@.len() as int)
    }

    /// Accepts a decoded image exactly when its dimensions are non-zero and
    /// the byte count matches them; everything else is a malformed asset.
    pub fn from_raw(width: u32, height: u32, data: Vec<u8>) -> (r: Result<
        PixelBuffer,
        ImageDecodeError,
    >)
        ensures
            match r {
                Ok(b) => {
                    &&& raw_image_well_formed(width, height, data@.len() as int)
                    &&& b.width == width
                    &&& b.height == height
                    &&& b.data@ == data@
                    &&& b.wf()
                },
                Err(e) => {
                    &&& !raw_image_well_formed(width, height, data@.len() as int)
                    &&& e == ImageDecodeError
                },
            },
    {
        let len = data.len();
        proof {
            assert((width as int) * (height as int) <= 0xffffffff * 0xffffffff)
                by (nonlinear_arith)
                requires
                    0 <= width as int <= 0xffffffff,
                    0 <= height as int <= 0xffffffff,
            ;
            assert(4 * ((width as int) * (height as int)) == 4 * width * height)
                by (nonlinear_arith);
        }
        let ok: bool = if width >= 1 && height >= 1 && len % 4 == 0 {
            (len / 4) as u64 == (width as u64) * (height as u64)
        } else {
            false
        };
        if ok {
            Ok(PixelBuffer { width, height, data })
        } else {
            Err(ImageDecodeError)
        }
    }
}

} // verus!
