use raster_ops::buffer::{Pixel, PixelBuffer};
use raster_ops::color::{brighten, grayscale, invert, sepia};

fn px(r: u8, g: u8, b: u8, a: u8) -> Pixel {
    Pixel { r, g, b, a }
}

fn row(pixels: Vec<Pixel>) -> PixelBuffer {
    PixelBuffer::from_pixels(pixels.len() as u32, 1, pixels).unwrap()
}

#[test]
fn invert_takes_each_colour_from_255() {
    let out = invert(&row(vec![px(0, 255, 100, 7), px(1, 254, 128, 0)]));
    assert_eq!(out.as_pixels(), &vec![px(255, 0, 155, 7), px(254, 1, 127, 0)]);
}

#[test]
fn invert_twice_is_identity() {
    let pixels: Vec<Pixel> = (0..=255u8).map(|n| px(n, 255 - n, n / 2, n)).collect();
    let start = PixelBuffer::from_pixels(16, 16, pixels).unwrap();
    assert_eq!(invert(&invert(&start)), start);
}

#[test]
fn brighten_adds_and_clamps() {
    let src = row(vec![px(0, 100, 250, 9), px(10, 20, 30, 255)]);
    assert_eq!(brighten(&src, 10).as_pixels(), &vec![px(10, 110, 255, 9), px(20, 30, 40, 255)]);
    assert_eq!(brighten(&src, -20).as_pixels(), &vec![px(0, 80, 230, 9), px(0, 0, 10, 255)]);
    assert_eq!(brighten(&src, 0), src);
}

#[test]
fn brighten_takes_any_value() {
    let src = row(vec![px(0, 100, 255, 42)]);
    assert_eq!(brighten(&src, 255).as_pixels(), &vec![px(255, 255, 255, 42)]);
    assert_eq!(brighten(&src, -255).as_pixels(), &vec![px(0, 0, 0, 42)]);
    assert_eq!(brighten(&src, i32::MAX).as_pixels(), &vec![px(255, 255, 255, 42)]);
    assert_eq!(brighten(&src, i32::MIN).as_pixels(), &vec![px(0, 0, 0, 42)]);
}

#[test]
fn sepia_weighs_the_colours() {
    // 0.393 * 10 + 0.769 * 20 + 0.189 * 30 = 24.98
    // 0.349 * 10 + 0.686 * 20 + 0.168 * 30 = 22.25
    // 0.272 * 10 + 0.534 * 20 + 0.131 * 30 = 17.33
    let out = sepia(&row(vec![px(10, 20, 30, 40)]));
    assert_eq!(out.as_pixels(), &vec![px(24, 22, 17, 40)]);
}

#[test]
fn sepia_caps_at_white_and_keeps_alpha() {
    // white: 344.5, 306.8 and 238.9
    let out = sepia(&row(vec![px(255, 255, 255, 3), px(0, 0, 0, 0), px(200, 100, 50, 128)]));
    assert_eq!(
        out.as_pixels(),
        &vec![px(255, 255, 238, 3), px(0, 0, 0, 0), px(164, 146, 114, 128)]
    );
}

#[test]
fn sepia_rounds_down() {
    // 0.393 * 255 = 100.215, 0.349 * 255 = 88.995, 0.272 * 255 = 69.36
    let out = sepia(&row(vec![px(255, 0, 0, 255)]));
    assert_eq!(out.as_pixels(), &vec![px(100, 88, 69, 255)]);
}

#[test]
fn grayscale_takes_the_luminance_and_drops_alpha() {
    // (2126 * 10 + 7152 * 20 + 722 * 30) / 10000 = 18.596
    let out = grayscale(&row(vec![
        px(10, 20, 30, 40),
        px(255, 0, 0, 0),
        px(0, 255, 0, 128),
        px(0, 0, 255, 255),
        px(255, 255, 255, 1),
        px(0, 0, 0, 77),
    ]));
    assert_eq!(
        out.as_pixels(),
        &vec![
            px(18, 18, 18, 255),
            px(54, 54, 54, 255),
            px(182, 182, 182, 255),
            px(18, 18, 18, 255),
            px(255, 255, 255, 255),
            px(0, 0, 0, 255),
        ]
    );
}

#[test]
fn grayscale_keeps_the_dimensions() {
    let pixels: Vec<Pixel> = (0..12u8).map(|n| px(n * 20, n, 255 - n, n)).collect();
    let out = grayscale(&PixelBuffer::from_pixels(4, 3, pixels.clone()).unwrap());
    assert_eq!((out.width(), out.height()), (4, 3));
    for (gray, p) in out.as_pixels().iter().zip(pixels.iter()) {
        let l = ((2126 * p.r as u32 + 7152 * p.g as u32 + 722 * p.b as u32) / 10000) as u8;
        assert_eq!(*gray, px(l, l, l, 255));
    }
}

#[test]
fn colour_transforms_keep_the_dimensions() {
    let src = PixelBuffer::from_pixels(3, 2, vec![px(1, 2, 3, 4); 6]).unwrap();
    for out in [invert(&src), brighten(&src, 5), sepia(&src), grayscale(&src)] {
        assert_eq!((out.width(), out.height()), (3, 2));
    }
}
