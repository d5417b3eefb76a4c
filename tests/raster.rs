use terrain_fields::error::BufferError;
use terrain_fields::raster::{padded_side, pixel_position, PixelBuffer, Rgba};

#[test]
fn pixel_position_splits_row_major_index() {
    assert_eq!(pixel_position(100, 250), (50, 2));
    assert_eq!(pixel_position(64, 0), (0, 0));
    assert_eq!(pixel_position(64, 64 * 64 - 1), (63, 63));
}

#[test]
fn padded_side_adds_one_texel_each_side() {
    assert_eq!(padded_side(100), Some(102));
    assert_eq!(padded_side(0), Some(2));
    assert_eq!(padded_side(u32::MAX - 1), None);
}

#[test]
fn from_pixels_rejects_wrong_count() {
    let px = vec![Rgba { r: 1, g: 2, b: 3, a: 4 }; 5];
    assert!(matches!(PixelBuffer::from_pixels(2, 2, &px), Err(BufferError::SizeMismatch)));
    assert!(matches!(PixelBuffer::from_pixels(0, 3, &px), Err(BufferError::SizeMismatch)));
}

#[test]
fn from_pixels_lays_out_row_major_bytes() {
    let px = vec![
        Rgba { r: 1, g: 2, b: 3, a: 4 },
        Rgba { r: 5, g: 6, b: 7, a: 8 },
        Rgba { r: 9, g: 10, b: 11, a: 12 },
        Rgba { r: 13, g: 14, b: 15, a: 16 },
        Rgba { r: 17, g: 18, b: 19, a: 20 },
        Rgba { r: 21, g: 22, b: 23, a: 24 },
    ];
    let buf = PixelBuffer::from_pixels(3, 2, &px).unwrap();
    assert_eq!(buf.width(), 3);
    assert_eq!(buf.height(), 2);
    assert_eq!(buf.pixel(0, 1), Rgba { r: 13, g: 14, b: 15, a: 16 });
    assert_eq!(buf.pixel(2, 0), Rgba { r: 9, g: 10, b: 11, a: 12 });
    let bytes = buf.into_bytes();
    assert_eq!(bytes, (1u8..=24).collect::<Vec<u8>>());
}

#[test]
fn empty_buffer_is_accepted() {
    let buf = PixelBuffer::from_pixels(0, 0, &Vec::new()).unwrap();
    assert!(buf.into_bytes().is_empty());
}
