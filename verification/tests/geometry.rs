use raster_ops::buffer::{Pixel, PixelBuffer};
use raster_ops::error::ValidationError;
use raster_ops::geometry::{crop_square, fliph, flipv, rotate180, rotate270, rotate90};

fn tag(n: u8) -> Pixel {
    Pixel { r: n, g: n.wrapping_mul(3), b: 255 - n, a: 200 }
}

/// A `width` x `height` buffer whose pixel at `(x, y)` is tagged `y * width + x`.
fn numbered(width: u32, height: u32) -> PixelBuffer {
    let pixels: Vec<Pixel> = (0..width * height).map(|i| tag(i as u8)).collect();
    PixelBuffer::from_pixels(width, height, pixels).unwrap()
}

fn tags(buf: &PixelBuffer) -> Vec<u8> {
    buf.as_pixels().iter().map(|p| p.r).collect()
}

#[test]
fn rotate90_turns_clockwise() {
    // 0 1 2      3 0
    // 3 4 5  ->  4 1
    //            5 2
    let out = rotate90(&numbered(3, 2));
    assert_eq!((out.width(), out.height()), (2, 3));
    assert_eq!(tags(&out), vec![3, 0, 4, 1, 5, 2]);
    assert_eq!(out.pixel_at(1, 0), tag(0));
}

#[test]
fn rotate180_reverses_the_pixels() {
    let out = rotate180(&numbered(3, 2));
    assert_eq!((out.width(), out.height()), (3, 2));
    assert_eq!(tags(&out), vec![5, 4, 3, 2, 1, 0]);
}

#[test]
fn rotate270_turns_counter_clockwise() {
    // 0 1 2      2 5
    // 3 4 5  ->  1 4
    //            0 3
    let out = rotate270(&numbered(3, 2));
    assert_eq!((out.width(), out.height()), (2, 3));
    assert_eq!(tags(&out), vec![2, 5, 1, 4, 0, 3]);
}

#[test]
fn rotate90_four_times_is_identity() {
    let start = numbered(5, 3);
    let back = rotate90(&rotate90(&rotate90(&rotate90(&start))));
    assert_eq!(back, start);
}

#[test]
fn rotations_compose() {
    let start = numbered(4, 7);
    assert_eq!(rotate90(&rotate90(&start)), rotate180(&start));
    assert_eq!(rotate90(&rotate180(&start)), rotate270(&start));
    assert_eq!(rotate270(&rotate90(&start)), start);
}

#[test]
fn fliph_mirrors_each_row() {
    let out = fliph(&numbered(3, 2));
    assert_eq!((out.width(), out.height()), (3, 2));
    assert_eq!(tags(&out), vec![2, 1, 0, 5, 4, 3]);
}

#[test]
fn flipv_mirrors_each_column() {
    let out = flipv(&numbered(3, 2));
    assert_eq!((out.width(), out.height()), (3, 2));
    assert_eq!(tags(&out), vec![3, 4, 5, 0, 1, 2]);
}

#[test]
fn flipping_twice_is_identity() {
    let start = numbered(6, 5);
    assert_eq!(fliph(&fliph(&start)), start);
    assert_eq!(flipv(&flipv(&start)), start);
}

#[test]
fn single_pixel_is_left_alone() {
    let one = numbered(1, 1);
    assert_eq!(rotate90(&one), one);
    assert_eq!(rotate180(&one), one);
    assert_eq!(rotate270(&one), one);
    assert_eq!(fliph(&one), one);
    assert_eq!(flipv(&one), one);
}

#[test]
fn crop_square_cuts_the_exact_rectangle() {
    //  0  1  2  3
    //  4  5  6  7
    //  8  9 10 11
    let out = crop_square(&numbered(4, 3), 1, 1, 2).unwrap();
    assert_eq!((out.width(), out.height()), (2, 2));
    assert_eq!(tags(&out), vec![5, 6, 9, 10]);
}

#[test]
fn crop_square_may_touch_the_edges() {
    let src = numbered(4, 3);
    let out = crop_square(&src, 1, 0, 3).unwrap();
    assert_eq!(tags(&out), vec![1, 2, 3, 5, 6, 7, 9, 10, 11]);
    let whole = crop_square(&numbered(3, 3), 0, 0, 3).unwrap();
    assert_eq!(whole, numbered(3, 3));
}

#[test]
fn crop_square_wider_than_the_image_fails() {
    let src = numbered(4, 6);
    assert_eq!(crop_square(&src, 0, 0, 5), Err(ValidationError::CropExceedsWidth));
    assert_eq!(crop_square(&src, 3, 0, 2), Err(ValidationError::CropExceedsWidth));
    assert_eq!(crop_square(&src, u32::MAX, 0, u32::MAX), Err(ValidationError::CropExceedsWidth));
}

#[test]
fn crop_square_taller_than_the_image_fails() {
    let src = numbered(6, 4);
    assert_eq!(crop_square(&src, 0, 0, 5), Err(ValidationError::CropExceedsHeight));
    assert_eq!(crop_square(&src, 0, 3, 2), Err(ValidationError::CropExceedsHeight));
}

#[test]
fn crop_square_checks_the_width_first() {
    let src = numbered(3, 3);
    assert_eq!(crop_square(&src, 2, 2, 2), Err(ValidationError::CropExceedsWidth));
}

#[test]
fn crop_square_of_edge_zero_inside_the_image_is_refused() {
    let src = numbered(4, 3);
    assert_eq!(crop_square(&src, 0, 0, 0), Err(ValidationError::EmptyCrop));
    assert_eq!(crop_square(&src, 4, 3, 0), Err(ValidationError::EmptyCrop));
}

#[test]
fn crop_square_of_edge_zero_outside_the_image_exceeds_it() {
    let src = numbered(4, 3);
    assert_eq!(crop_square(&src, 5, 0, 0), Err(ValidationError::CropExceedsWidth));
    assert_eq!(crop_square(&src, 5, 9, 0), Err(ValidationError::CropExceedsWidth));
    assert_eq!(crop_square(&src, 0, 4, 0), Err(ValidationError::CropExceedsHeight));
}

#[test]
fn validation_errors_have_their_messages() {
    assert_eq!(ValidationError::EmptyCrop.message(), "Crop area is empty");
    assert_eq!(ValidationError::CropExceedsWidth.message(), "Crop area exceeds image width");
    assert_eq!(ValidationError::CropExceedsHeight.message(), "Crop area exceeds image height");
    assert_eq!(ValidationError::NegativeSigma.message(), "Sigma must be non-negative");
    assert_eq!(
        ValidationError::OpacityOutOfRange.message(),
        "Opacity must be between 0.0 and 1.0"
    );
}
