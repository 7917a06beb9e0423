use davif::compose::compose;
use davif::types::{DecodedImageDescriptor, ImageError, Plane};

fn descriptor(
    width: usize,
    height: usize,
    row_stride: usize,
    buffers: [Vec<u8>; 3],
) -> DecodedImageDescriptor {
    let [r, g, b] = buffers;
    DecodedImageDescriptor {
        width,
        height,
        planes: vec![
            Plane { buffer: r, row_stride },
            Plane { buffer: g, row_stride },
            Plane { buffer: b, row_stride },
        ],
    }
}

#[test]
fn compose_two_by_two_exact_bytes() {
    // Round trip of a synthetic 2x2 descriptor with distinct bytes in each
    // plane: every one of the 12 output offsets is pinned down.
    let desc = descriptor(
        2,
        2,
        2,
        [
            vec![1, 2, 3, 4],
            vec![10, 20, 30, 40],
            vec![100, 101, 102, 103],
        ],
    );
    let img = compose(&desc).expect("in-bounds descriptor composes");
    assert_eq!(img.width, 2);
    assert_eq!(img.height, 2);
    assert_eq!(
        img.data,
        vec![1, 10, 100, 2, 20, 101, 3, 30, 102, 4, 40, 103]
    );
}

#[test]
fn compose_output_length_is_exact() {
    let desc = descriptor(
        3,
        2,
        3,
        [vec![0; 6], vec![0; 6], vec![0; 6]],
    );
    let img = compose(&desc).expect("compose");
    assert_eq!(img.data.len(), 3 * 2 * 3);
}

#[test]
fn compose_uses_stride_not_width() {
    // Stride is width + 1 and every padding byte is the sentinel 0xEE: the
    // sentinel must never reach the composited output.
    let sentinel = 0xEE;
    let r = vec![1, 2, sentinel, 3, 4, sentinel];
    let g = vec![11, 12, sentinel, 13, 14, sentinel];
    let b = vec![21, 22, sentinel, 23, 24, sentinel];
    let desc = descriptor(2, 2, 3, [r, g, b]);
    let img = compose(&desc).expect("compose");
    assert!(img.data.iter().all(|&byte| byte != sentinel));
    assert_eq!(
        img.data,
        vec![1, 11, 21, 2, 12, 22, 3, 13, 23, 4, 14, 24]
    );
}

#[test]
fn compose_short_plane_is_out_of_bounds() {
    // With stride 3 and two rows, the last read lands at offset 4; a
    // 4-byte plane ends before it, so composing must fail, not read wild.
    let desc = descriptor(
        2,
        2,
        3,
        [vec![0; 4], vec![0; 6], vec![0; 6]],
    );
    assert!(matches!(compose(&desc), Err(ImageError::OutOfBounds)));
}

#[test]
fn compose_checks_every_plane() {
    // Only the last plane is short; the failure must still surface and no
    // partial buffer may escape.
    let desc = descriptor(
        2,
        2,
        2,
        [vec![0; 4], vec![0; 4], vec![0; 3]],
    );
    assert!(matches!(compose(&desc), Err(ImageError::OutOfBounds)));
}

#[test]
fn compose_exact_plane_length_is_accepted() {
    // (height - 1) * stride + width bytes is exactly enough.
    let desc = descriptor(
        2,
        2,
        3,
        [vec![5; 5], vec![6; 5], vec![7; 5]],
    );
    let img = compose(&desc).expect("compose");
    assert_eq!(img.data, vec![5, 6, 7, 5, 6, 7, 5, 6, 7, 5, 6, 7]);
}
