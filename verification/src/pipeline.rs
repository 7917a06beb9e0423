//! The whole pixel pipeline behind one AVIF-to-PNG conversion: composing
//! the decoded planes into an interleaved buffer and rescaling it to the
//! requested resolution. Decoding the AVIF bitstream and writing the PNG
//! file are the calling boundary's job; this function carries the pixels
//! between them.

use vstd::prelude::*;

use crate::compose::{compose, interleave};
use crate::scale::{lanczos3_rgb, resize_fits, resolved_height, resolved_width};
use crate::types::{DecodedImageDescriptor, ImageError, InterleavedImage};

verus! {

/// The pixel work of converting one decoded AVIF image to its PNG-ready
/// form: compose the descriptor's planes, then resize to what `(target_w,
/// target_h)` resolves to, `(0, 0)` meaning "keep the decoded size".
///
/// Fails with `OutOfBounds` when a plane is too short for the image
/// dimensions and its stride, and with `InvalidDimensions` when a derived
/// target axis truncates to zero; otherwise the result is exactly the
/// composed buffer, resampled unless the request was `(0, 0)`.
pub fn convert_avif_to_png(
    desc: &DecodedImageDescriptor,
    target_w: usize,
    target_h: usize,
) -> (r: Result<InterleavedImage, ImageError>)
    requires
        desc.wf(),
        desc.width * desc.height * 3 <= usize::MAX,
        resize_fits(desc.width as int, desc.height as int, target_w as int, target_h as int),
    ensures
        r is Ok <==> {
            &&& desc.planes_in_bounds()
            &&& resolved_width(desc.width as int, desc.height as int, target_w as int, target_h as int) > 0
            &&& resolved_height(desc.width as int, desc.height as int, target_w as int, target_h as int) > 0
        },
        !desc.planes_in_bounds() ==> r == Err::<InterleavedImage, ImageError>(
            ImageError::OutOfBounds,
        ),
        r matches Err(e) ==> (e == ImageError::OutOfBounds || e == ImageError::InvalidDimensions),
        desc.planes_in_bounds() ==> (r matches Err(e) ==> e == ImageError::InvalidDimensions),
        r matches Ok(out) ==> {
            &&& out.wf()
            &&& out.width == resolved_width(
                desc.width as int,
                desc.height as int,
                target_w as int,
                target_h as int,
            )
            &&& out.height == resolved_height(
                desc.width as int,
                desc.height as int,
                target_w as int,
                target_h as int,
            )
            &&& (target_w == 0 && target_h == 0 ==> out.data@ == interleave(*desc))
            &&& (!(target_w == 0 && target_h == 0) ==> out.data@ == lanczos3_rgb(
                interleave(*desc),
                desc.width as int,
                desc.height as int,
                out.width as int,
                out.height as int,
            ))
        },
{
    let composed = match compose(desc) {
        Ok(img) => img,
        Err(e) => {
            return Err(e);
        },
    };
    composed.resize(target_w, target_h)
}

} // verus!
