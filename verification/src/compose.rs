//! The plane compositor: reads the three planes of a decoded image
//! descriptor, stride by stride, and packs them into one interleaved
//! buffer in fixed R, G, B order.

use vstd::prelude::*;

use crate::types::{DecodedImageDescriptor, ImageError, InterleavedImage};

verus! {

/// The byte the compositor reads for pixel `(u, v)` of channel `p`: the
/// plane's own row stride addresses the row, never the pixel width.
pub open spec fn plane_byte(desc: DecodedImageDescriptor, u: int, v: int, p: int) -> u8 {
    desc.planes@[p].buffer@[u + v * desc.planes@[p].row_stride]
}

/// The interleaved buffer a descriptor composes to: byte `i` belongs to
/// pixel `i / 3` (column `(i / 3) % width`, row `(i / 3) / width`) and
/// channel `i % 3`.
pub open spec fn interleave(desc: DecodedImageDescriptor) -> Seq<u8> {
    Seq::new(
        (desc.width * desc.height * 3) as nat,
        |i: int|
            plane_byte(
                desc,
                (i / 3) % (desc.width as int),
                (i / 3) / (desc.width as int),
                i % 3,
            ),
    )
}

/// Index arithmetic behind the interleaving: pixel `(u, v)`, channel `p`
/// lands at output offset `(v * width + u) * 3 + p`, and that offset
/// decomposes back to exactly `(u, v, p)`.
proof fn lemma_interleave_at(desc: DecodedImageDescriptor, u: int, v: int, p: int)
    requires
        desc.wf(),
        0 <= u < desc.width,
        0 <= v < desc.height,
        0 <= p < 3,
    ensures
        0 <= (v * desc.width + u) * 3 + p < desc.width * desc.height * 3,
        interleave(desc)[(v * desc.width + u) * 3 + p] == plane_byte(desc, u, v, p),
{
    let w = desc.width as int;
    let h = desc.height as int;
    let q = v * w + u;
    let i = q * 3 + p;
    assert(v * w <= (h - 1) * w) by {
        vstd::arithmetic::mul::lemma_mul_inequality(v, h - 1, w);
    }
    assert((h - 1) * w + w == h * w) by {
        vstd::arithmetic::mul::lemma_mul_is_distributive_add_other_way(w, h - 1, 1);
    }
    assert(0 <= q < h * w) by {
        vstd::arithmetic::mul::lemma_mul_nonnegative(v, w);
    }
    assert(w * h == h * w) by {
        vstd::arithmetic::mul::lemma_mul_is_commutative(w, h);
    }
    assert(0 <= i < w * h * 3);
    vstd::arithmetic::div_mod::lemma_fundamental_div_mod_converse(i, 3, q, p);
    vstd::arithmetic::div_mod::lemma_fundamental_div_mod_converse(q, w, v, u);
    assert(i % 3 == p && i / 3 == q && q % w == u && q / w == v);
}

/// Row addressing goes by each plane's own stride, never by the pixel
/// width, and only columns below the width are ever read: two descriptors
/// with the same dimensions and strides whose planes agree at every
/// addressed offset `u + v * row_stride` (`u < width`, `v < height`)
/// compose to the same buffer, however their padding bytes differ.
pub proof fn lemma_compose_ignores_padding(d1: DecodedImageDescriptor, d2: DecodedImageDescriptor)
    requires
        d1.wf(),
        d2.wf(),
        d1.width == d2.width,
        d1.height == d2.height,
        forall|p: int| 0 <= p < 3 ==>
            (#[trigger] d1.planes@[p]).row_stride == d2.planes@[p].row_stride,
        forall|p: int, u: int, v: int|
            0 <= p < 3 && 0 <= u < d1.width && 0 <= v < d1.height ==> #[trigger] plane_byte(
                d1,
                u,
                v,
                p,
            ) == plane_byte(d2, u, v, p),
    ensures
        interleave(d1) == interleave(d2),
{
    let w = d1.width as int;
    let h = d1.height as int;
    assert forall|i: int| 0 <= i < w * h * 3 implies interleave(d1)[i] == interleave(d2)[i] by {
        let p = i % 3;
        let q = i / 3;
        let u = q % w;
        let v = q / w;
        assert(0 <= p < 3) by {
            vstd::arithmetic::div_mod::lemma_mod_division_less_than_divisor(i, 3);
        }
        assert(0 <= q < w * h) by {
            vstd::arithmetic::div_mod::lemma_div_pos_is_pos(i, 3);
            vstd::arithmetic::div_mod::lemma_multiply_divide_lt(i, 3, w * h);
        }
        assert(0 <= u < w) by {
            vstd::arithmetic::div_mod::lemma_mod_division_less_than_divisor(q, w);
        }
        assert(0 <= v < h) by {
            vstd::arithmetic::div_mod::lemma_div_pos_is_pos(q, w);
            vstd::arithmetic::div_mod::lemma_multiply_divide_lt(q, w, h);
        }
        assert(plane_byte(d1, u, v, p) == plane_byte(d2, u, v, p));
    }
    assert(interleave(d1) =~= interleave(d2));
}

/// Composes the descriptor's three planes into one interleaved image.
///
/// Every read offset is validated against its plane's buffer length before
/// any byte is read: a descriptor whose planes are too short for their
/// stride and the image dimensions yields `OutOfBounds` and no buffer.
pub fn compose(desc: &DecodedImageDescriptor) -> (r: Result<InterleavedImage, ImageError>)
    requires
        desc.wf(),
        desc.width * desc.height * 3 <= usize::MAX,
    ensures
        r is Ok <==> desc.planes_in_bounds(),
        r matches Err(e) ==> e == ImageError::OutOfBounds,
        r matches Ok(img) ==> {
            &&& img.wf()
            &&& img.width == desc.width
            &&& img.height == desc.height
            &&& img.data@.len() == desc.width * desc.height * 3
            &&& img.data@ == interleave(*desc)
        },
{
    let width = desc.width;
    let height = desc.height;

    // Validate every plane before reading anything, so that failure is
    // atomic: no partial output, no read past a buffer's end.
    let mut p: usize = 0;
    while p < 3
        invariant
            desc.wf(),
            width == desc.width,
            height == desc.height,
            p <= 3,
            forall|q: int| 0 <= q < p ==>
                (desc.height - 1) * (#[trigger] desc.planes@[q]).row_stride + desc.width
                    <= desc.planes@[q].buffer@.len(),
        decreases 3 - p,
    {
        let plane = &desc.planes[p];
        let blen = plane.buffer.len();
        let fits = match (height - 1).checked_mul(plane.row_stride) {
            Some(last_row) => match last_row.checked_add(width) {
                Some(end) => end <= blen,
                None => false,
            },
            None => false,
        };
        if !fits {
            proof {
                assert((desc.height - 1) * desc.planes@[p as int].row_stride + desc.width
                    > desc.planes@[p as int].buffer@.len());
            }
            return Err(ImageError::OutOfBounds);
        }
        p += 1;
    }

    let mut data: Vec<u8> = Vec::new();
    let mut v: usize = 0;
    while v < height
        invariant
            desc.wf(),
            desc.planes_in_bounds(),
            width == desc.width,
            height == desc.height,
            desc.width * desc.height * 3 <= usize::MAX,
            v <= height,
            data@.len() == v * width * 3,
            forall|i: int| 0 <= i < data@.len() ==> data@[i] == interleave(*desc)[i],
        decreases height - v,
    {
        let mut u: usize = 0;
        while u < width
            invariant
                desc.wf(),
                desc.planes_in_bounds(),
                width == desc.width,
                height == desc.height,
                desc.width * desc.height * 3 <= usize::MAX,
                v < height,
                u <= width,
                data@.len() == v * width * 3 + u * 3,
                forall|i: int| 0 <= i < data@.len() ==> data@[i] == interleave(*desc)[i],
            decreases width - u,
        {
            let mut p: usize = 0;
            while p < 3
                invariant
                    desc.wf(),
                    desc.planes_in_bounds(),
                    width == desc.width,
                    height == desc.height,
                    desc.width * desc.height * 3 <= usize::MAX,
                    v < height,
                    u < width,
                    p <= 3,
                    data@.len() == v * width * 3 + u * 3 + p,
                    forall|i: int| 0 <= i < data@.len() ==> data@[i] == interleave(*desc)[i],
                decreases 3 - p,
            {
                let plane = &desc.planes[p];
                let stride = plane.row_stride;
                let blen = plane.buffer.len();
                proof {
                    assert((desc.height - 1) * desc.planes@[p as int].row_stride + desc.width
                        <= desc.planes@[p as int].buffer@.len());
                    assert(v * stride <= (height - 1) * stride) by {
                        vstd::arithmetic::mul::lemma_mul_inequality(
                            v as int,
                            height - 1,
                            stride as int,
                        );
                    }
                    assert(0 <= v * stride) by {
                        vstd::arithmetic::mul::lemma_mul_nonnegative(v as int, stride as int);
                    }
                    assert(u + v * stride < blen);
                }
                let offset = u + v * stride;
                let byte = plane.buffer[offset];
                proof {
                    lemma_interleave_at(*desc, u as int, v as int, p as int);
                    assert((v * width + u) * 3 + p == v * width * 3 + u * 3 + p) by {
                        vstd::arithmetic::mul::lemma_mul_is_distributive_add_other_way(
                            3,
                            v * width,
                            u as int,
                        );
                        vstd::arithmetic::mul::lemma_mul_is_commutative(v * width + u as int, 3);
                        vstd::arithmetic::mul::lemma_mul_is_commutative(v * width, 3);
                    }
                }
                data.push(byte);
                p += 1;
            }
            u += 1;
        }
        proof {
            assert(v * width * 3 + width * 3 == (v + 1) * width * 3) by {
                vstd::arithmetic::mul::lemma_mul_is_distributive_add_other_way(
                    width as int,
                    v as int,
                    1,
                );
            }
        }
        v += 1;
    }
    proof {
        assert(height * width == width * height) by {
            vstd::arithmetic::mul::lemma_mul_is_commutative(height as int, width as int);
        }
        assert(data@ =~= interleave(*desc));
    }
    Ok(InterleavedImage { data, width, height })
}

} // verus!
