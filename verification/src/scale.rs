//! The aspect resizer: resolves the target resolution from the request and
//! the source aspect ratio, then hands the pixel resampling to an external
//! Lanczos filter primitive.

use vstd::prelude::*;

use crate::types::{ImageError, InterleavedImage};

verus! {

/// The width the resize request resolves to: the source width when nothing
/// is requested, the requested width when it is given, and otherwise the
/// width derived from the source aspect ratio by truncating division.
pub open spec fn resolved_width(src_w: int, src_h: int, target_w: int, target_h: int) -> int {
    if target_w == 0 && target_h == 0 {
        src_w
    } else if target_w == 0 {
        (src_w * target_h) / src_h
    } else {
        target_w
    }
}

/// The height the resize request resolves to, symmetric to
/// [`resolved_width`].
pub open spec fn resolved_height(src_w: int, src_h: int, target_w: int, target_h: int) -> int {
    if target_w == 0 && target_h == 0 {
        src_h
    } else if target_h == 0 {
        (src_h * target_w) / src_w
    } else {
        target_h
    }
}

/// The machine limits a resize request must respect: the aspect products
/// and both pixel buffers — the resampler also keeps a working buffer of
/// `src_w * resolved_height * 3` entries — must fit in `usize`.
pub open spec fn resize_fits(src_w: int, src_h: int, target_w: int, target_h: int) -> bool {
    &&& (target_w == 0 ==> src_w * target_h <= usize::MAX)
    &&& (target_h == 0 ==> src_h * target_w <= usize::MAX)
    &&& resolved_width(src_w, src_h, target_w, target_h)
        * resolved_height(src_w, src_h, target_w, target_h) * 3 <= usize::MAX
    &&& src_w * resolved_height(src_w, src_h, target_w, target_h) * 3 <= usize::MAX
}

/// Resolves a resize request against the source dimensions.
///
/// A target axis of `0` means "derive from the aspect ratio", or "keep the
/// source size" when both are `0`; with both axes given they are taken
/// verbatim, aspect ratio deliberately not preserved. A derived axis that
/// truncates to `0` cannot size a buffer and is rejected.
pub fn resolve_dimensions(src_w: usize, src_h: usize, target_w: usize, target_h: usize) -> (r:
    Result<(usize, usize), ImageError>)
    requires
        src_w > 0,
        src_h > 0,
        target_w == 0 ==> src_w * target_h <= usize::MAX,
        target_h == 0 ==> src_h * target_w <= usize::MAX,
    ensures
        r is Ok <==> {
            &&& resolved_width(src_w as int, src_h as int, target_w as int, target_h as int) > 0
            &&& resolved_height(src_w as int, src_h as int, target_w as int, target_h as int) > 0
        },
        r matches Ok(d) ==> {
            &&& d.0 == resolved_width(src_w as int, src_h as int, target_w as int, target_h as int)
            &&& d.1 == resolved_height(src_w as int, src_h as int, target_w as int, target_h as int)
        },
        r matches Err(e) ==> e == ImageError::InvalidDimensions,
{
    if target_w == 0 && target_h == 0 {
        Ok((src_w, src_h))
    } else if target_w == 0 {
        let derived_w: usize = (src_w * target_h) / src_h;
        if derived_w == 0 {
            Err(ImageError::InvalidDimensions)
        } else {
            Ok((derived_w, target_h))
        }
    } else if target_h == 0 {
        let derived_h: usize = (src_h * target_w) / src_w;
        if derived_h == 0 {
            Err(ImageError::InvalidDimensions)
        } else {
            Ok((target_w, derived_h))
        }
    } else {
        Ok((target_w, target_h))
    }
}

/// What the external Lanczos filter makes of a 3-channel, 8-bit
/// interleaved buffer when it is resampled between the given dimensions.
/// The result depends on these arguments alone.
pub uninterp spec fn lanczos3_rgb(
    src: Seq<u8>,
    src_w: int,
    src_h: int,
    dst_w: int,
    dst_h: int,
) -> Seq<u8>;

/// Relies on `resize::resize`: a one-step Lanczos3 resample of 8-bit,
/// 3-channel interleaved pixel data from `src_w x src_h` into `dst_w x
/// dst_h`, filling the whole destination buffer. The preconditions mirror
/// the sizes it asserts and the working buffer it allocates.
#[verifier::external_body]
fn lanczos3_resample(
    src: &Vec<u8>,
    src_w: usize,
    src_h: usize,
    dst_w: usize,
    dst_h: usize,
    dst: &mut Vec<u8>,
)
    requires
        0 < src_w,
        0 < src_h,
        0 < dst_w,
        0 < dst_h,
        src@.len() == src_w * src_h * 3,
        old(dst)@.len() == dst_w * dst_h * 3,
        src_w * dst_h * 3 <= usize::MAX,
    ensures
        final(dst)@.len() == old(dst)@.len(),
        final(dst)@ == lanczos3_rgb(src@, src_w as int, src_h as int, dst_w as int, dst_h as int),
{
    resize::resize(
        src_w,
        src_h,
        dst_w,
        dst_h,
        resize::Pixel::RGB24,
        resize::Type::Lanczos3,
        src.as_slice(),
        dst.as_mut_slice(),
    )
}

/// A fresh buffer of `n` zero bytes, ready for the resampler to fill.
fn zeroed_buffer(n: usize) -> (v: Vec<u8>)
    ensures
        v@.len() == n,
{
    let mut v: Vec<u8> = Vec::new();
    while v.len() < n
        invariant
            v@.len() <= n,
        decreases n - v@.len(),
    {
        v.push(0u8);
    }
    v
}

impl InterleavedImage {
    /// Rescales the image to the resolution the request resolves to.
    ///
    /// A request of `(0, 0)` is the no-op fast path: the image comes back
    /// unchanged, byte for byte, and no filter runs. Otherwise a brand-new
    /// buffer at the resolved resolution is filled by the external Lanczos
    /// primitive; a derived axis that truncates to `0` yields
    /// `InvalidDimensions` instead of an unconstructible empty image.
    pub fn resize(self, target_w: usize, target_h: usize) -> (r: Result<
        InterleavedImage,
        ImageError,
    >)
        requires
            self.wf(),
            resize_fits(self.width as int, self.height as int, target_w as int, target_h as int),
        ensures
            r is Ok <==> {
                &&& resolved_width(
                    self.width as int,
                    self.height as int,
                    target_w as int,
                    target_h as int,
                ) > 0
                &&& resolved_height(
                    self.width as int,
                    self.height as int,
                    target_w as int,
                    target_h as int,
                ) > 0
            },
            r matches Err(e) ==> e == ImageError::InvalidDimensions,
            r matches Ok(out) ==> {
                &&& out.wf()
                &&& out.width == resolved_width(
                    self.width as int,
                    self.height as int,
                    target_w as int,
                    target_h as int,
                )
                &&& out.height == resolved_height(
                    self.width as int,
                    self.height as int,
                    target_w as int,
                    target_h as int,
                )
                &&& (target_w == 0 && target_h == 0 ==> out == self)
                &&& (!(target_w == 0 && target_h == 0) ==> out.data@ == lanczos3_rgb(
                    self.data@,
                    self.width as int,
                    self.height as int,
                    out.width as int,
                    out.height as int,
                ))
            },
    {
        if target_w == 0 && target_h == 0 {
            return Ok(self);
        }
        let (out_w, out_h) = match resolve_dimensions(
            self.width,
            self.height,
            target_w,
            target_h,
        ) {
            Ok(d) => d,
            Err(e) => {
                return Err(e);
            },
        };
        let mut dst = zeroed_buffer(out_w * out_h * 3);
        lanczos3_resample(&self.data, self.width, self.height, out_w, out_h, &mut dst);
        Ok(InterleavedImage { data: dst, width: out_w, height: out_h })
    }
}

} // verus!
