use davif::pipeline::convert_avif_to_png;
use davif::types::{DecodedImageDescriptor, ImageError, Plane};

fn two_by_two() -> DecodedImageDescriptor {
    DecodedImageDescriptor {
        width: 2,
        height: 2,
        planes: vec![
            Plane {
                buffer: vec![1, 2, 3, 4],
                row_stride: 2,
            },
            Plane {
                buffer: vec![10, 20, 30, 40],
                row_stride: 2,
            },
            Plane {
                buffer: vec![100, 101, 102, 103],
                row_stride: 2,
            },
        ],
    }
}

#[test]
fn pipeline_keeps_size_and_interleaves() {
    let desc = two_by_two();
    let out = convert_avif_to_png(&desc, 0, 0).expect("pipeline");
    assert_eq!(out.width, 2);
    assert_eq!(out.height, 2);
    assert_eq!(
        out.data,
        vec![1, 10, 100, 2, 20, 101, 3, 30, 102, 4, 40, 103]
    );
}

#[test]
fn pipeline_resizes_after_composing() {
    let desc = two_by_two();
    let out = convert_avif_to_png(&desc, 4, 4).expect("pipeline");
    assert_eq!(out.width, 4);
    assert_eq!(out.height, 4);
    assert_eq!(out.data.len(), 4 * 4 * 3);
}

#[test]
fn pipeline_surfaces_out_of_bounds_first() {
    let mut desc = two_by_two();
    desc.planes[1].buffer.truncate(3);
    assert!(matches!(
        convert_avif_to_png(&desc, 4, 4),
        Err(ImageError::OutOfBounds)
    ));
}

#[test]
fn pipeline_surfaces_degenerate_target() {
    // Target height 1 on a 1x4 source derives width 1 * 1 / 4 = 0.
    let thin = DecodedImageDescriptor {
        width: 1,
        height: 4,
        planes: vec![
            Plane {
                buffer: vec![1, 2, 3, 4],
                row_stride: 1,
            },
            Plane {
                buffer: vec![1, 2, 3, 4],
                row_stride: 1,
            },
            Plane {
                buffer: vec![1, 2, 3, 4],
                row_stride: 1,
            },
        ],
    };
    assert!(matches!(
        convert_avif_to_png(&thin, 0, 1),
        Err(ImageError::InvalidDimensions)
    ));
}
