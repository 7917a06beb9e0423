//! The data the pipeline flows through: a decoded image descriptor made of
//! color planes, the interleaved image it is composed into, and the errors
//! the core operations can surface.

use vstd::prelude::*;

verus! {

/// Why a core operation failed.
#[derive(Clone, Copy, Debug, PartialEq, Eq, Structural)]
pub enum ImageError {
    /// A plane read offset would land beyond the plane's buffer.
    OutOfBounds,
    /// A dimension that must be positive resolved to zero.
    InvalidDimensions,
}

/// One color channel's full-image pixel data: an independent buffer whose
/// rows start `row_stride` bytes apart. The stride may exceed the pixel
/// width when rows carry alignment padding.
pub struct Plane {
    /// The plane's byte storage, row-major with `row_stride` bytes per row.
    pub buffer: Vec<u8>,
    /// Bytes separating the starts of consecutive rows; at least the width.
    pub row_stride: usize,
}

/// A decoded image as the decoder hands it over: pixel dimensions and
/// exactly three color planes in fixed channel order (R, G, B).
pub struct DecodedImageDescriptor {
    /// Pixel width; positive.
    pub width: usize,
    /// Pixel height; positive.
    pub height: usize,
    /// The three channel planes, in output order.
    pub planes: Vec<Plane>,
}

impl DecodedImageDescriptor {
    /// What the decoder guarantees of every descriptor it produces:
    /// positive dimensions, exactly three planes, and no stride narrower
    /// than the pixel width.
    pub open spec fn wf(self) -> bool {
        &&& self.width > 0
        &&& self.height > 0
        &&& self.planes@.len() == 3
        &&& forall|p: int| 0 <= p < 3 ==> #[trigger] self.planes@[p].row_stride >= self.width
    }

    /// Every byte the compositor will read lies inside its plane's buffer:
    /// the last read of plane `p` is at offset `(width - 1) + (height - 1) *
    /// row_stride`, so the buffer must extend to at least `(height - 1) *
    /// row_stride + width` bytes.
    pub open spec fn planes_in_bounds(self) -> bool {
        forall|p: int| 0 <= p < 3 ==>
            (self.height - 1) * (#[trigger] self.planes@[p]).row_stride + self.width
                <= self.planes@[p].buffer@.len()
    }
}

/// A dense, channel-interleaved, row-major pixel buffer with no padding
/// between rows: exactly `width * height * 3` bytes.
pub struct InterleavedImage {
    /// The pixel bytes, R, G, B per pixel, row-major.
    pub data: Vec<u8>,
    /// Pixel width; positive.
    pub width: usize,
    /// Pixel height; positive.
    pub height: usize,
}

impl InterleavedImage {
    /// The type's invariant: positive dimensions and a buffer of exactly
    /// `width * height * 3` bytes.
    pub open spec fn wf(self) -> bool {
        &&& self.width > 0
        &&& self.height > 0
        &&& self.data@.len() == self.width * self.height * 3
    }

    /// Builds an image after checking the invariant, so that unverified
    /// callers get the same fail-fast behaviour the core promises.
    pub fn new(data: Vec<u8>, width: usize, height: usize) -> (r: Result<InterleavedImage, ImageError>)
        ensures
            r matches Ok(img) ==> {
                &&& img.wf()
                &&& img.width == width
                &&& img.height == height
                &&& img.data@ == data@
            },
            r is Ok <==> width > 0 && height > 0 && data@.len() == width * height * 3,
            r matches Err(e) ==> e == ImageError::InvalidDimensions,
    {
        let len = data.len();
        let wanted = match width.checked_mul(height) {
            Some(wh) => wh.checked_mul(3),
            None => None,
        };
        match wanted {
            Some(n) => {
                if width == 0 || height == 0 || len != n {
                    Err(ImageError::InvalidDimensions)
                } else {
                    Ok(InterleavedImage { data, width, height })
                }
            }
            None => {
                // The exact byte count overflows `usize`, so no buffer can have it.
                assert(len < width * height * 3);
                Err(ImageError::InvalidDimensions)
            }
        }
    }
}

} // verus!
