use raster_ops::buffer::{check_dimensions, Pixel, PixelBuffer};

fn px(r: u8, g: u8, b: u8, a: u8) -> Pixel {
    Pixel { r, g, b, a }
}

#[test]
fn from_raw_reads_four_bytes_per_pixel() {
    let data = vec![1, 2, 3, 4, 5, 6, 7, 8, 9, 10, 11, 12];
    let buf = PixelBuffer::from_raw(3, 1, data).unwrap();
    assert_eq!(buf.width(), 3);
    assert_eq!(buf.height(), 1);
    assert_eq!(buf.pixel_at(0, 0), px(1, 2, 3, 4));
    assert_eq!(buf.pixel_at(1, 0), px(5, 6, 7, 8));
    assert_eq!(buf.pixel_at(2, 0), px(9, 10, 11, 12));
}

#[test]
fn raw_bytes_round_trip() {
    let data: Vec<u8> = (0u8..24).collect();
    let buf = PixelBuffer::from_raw(2, 3, data.clone()).unwrap();
    assert_eq!(buf.to_raw(), data);
    assert_eq!(buf.to_raw().len(), 2 * 3 * 4);
}

#[test]
fn from_raw_rejects_a_wrong_length() {
    assert!(PixelBuffer::from_raw(2, 2, vec![0; 15]).is_none());
    assert!(PixelBuffer::from_raw(2, 2, vec![0; 17]).is_none());
    assert!(PixelBuffer::from_raw(2, 2, vec![0; 16]).is_some());
}

#[test]
fn from_raw_rejects_empty_dimensions() {
    assert!(PixelBuffer::from_raw(0, 0, vec![]).is_none());
    assert!(PixelBuffer::from_raw(0, 4, vec![]).is_none());
    assert!(PixelBuffer::from_raw(4, 0, vec![]).is_none());
}

#[test]
fn from_pixels_checks_the_count() {
    let p = px(9, 8, 7, 6);
    assert!(PixelBuffer::from_pixels(2, 2, vec![p; 4]).is_some());
    assert!(PixelBuffer::from_pixels(2, 2, vec![p; 3]).is_none());
    assert!(PixelBuffer::from_pixels(2, 2, vec![p; 5]).is_none());
    assert!(PixelBuffer::from_pixels(0, 2, vec![]).is_none());
}

#[test]
fn pixels_are_row_major() {
    let pixels = vec![px(0, 0, 0, 0), px(1, 0, 0, 0), px(0, 1, 0, 0), px(1, 1, 0, 0)];
    let buf = PixelBuffer::from_pixels(2, 2, pixels.clone()).unwrap();
    assert_eq!(buf.pixel_at(1, 0), px(1, 0, 0, 0));
    assert_eq!(buf.pixel_at(0, 1), px(0, 1, 0, 0));
    assert_eq!(buf.as_pixels(), &pixels);
}

#[test]
fn get_pixel_is_none_outside() {
    let buf = PixelBuffer::from_pixels(2, 1, vec![px(1, 1, 1, 1), px(2, 2, 2, 2)]).unwrap();
    assert_eq!(buf.get_pixel(1, 0), Some(px(2, 2, 2, 2)));
    assert_eq!(buf.get_pixel(2, 0), None);
    assert_eq!(buf.get_pixel(0, 1), None);
}

#[test]
fn duplicate_is_equal() {
    let buf = PixelBuffer::from_raw(2, 2, (100u8..116).collect()).unwrap();
    assert_eq!(buf.duplicate(), buf);
}

#[test]
fn dimensions_must_be_positive_and_addressable() {
    assert!(check_dimensions(1, 1));
    assert!(check_dimensions(4000, 3000));
    assert!(!check_dimensions(0, 1));
    assert!(!check_dimensions(1, 0));
    assert!(!check_dimensions(u32::MAX, u32::MAX));
}
