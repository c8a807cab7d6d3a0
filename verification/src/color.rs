//! Colour transforms: each maps every pixel by itself and keeps the dimensions.

use vstd::prelude::*;
use crate::buffer::{Image, Pixel, PixelBuffer};

verus! {

/// The value nearest to `v` that a channel can hold.
pub open spec fn clamp_channel(v: int) -> u8 {
    if v < 0 {
        0u8
    } else if v > 255 {
        255u8
    } else {
        v as u8
    }
}

/// The negative of a pixel: every colour channel `c` becomes `255 - c`, alpha stays.
pub open spec fn invert_pixel(p: Pixel) -> Pixel {
    Pixel { r: (255 - p.r) as u8, g: (255 - p.g) as u8, b: (255 - p.b) as u8, a: p.a }
}

/// A pixel with `value` added to every colour channel, clamped; alpha stays.
pub open spec fn brighten_pixel(p: Pixel, value: int) -> Pixel {
    Pixel {
        r: clamp_channel(p.r + value),
        g: clamp_channel(p.g + value),
        b: clamp_channel(p.b + value),
        a: p.a,
    }
}

/// The sepia tone of a pixel. The weights are thousandths; each weighted sum is
/// taken exactly, rounded down to a whole number and capped at 255; alpha stays.
pub open spec fn sepia_pixel(p: Pixel) -> Pixel {
    Pixel {
        r: clamp_channel((393 * p.r + 769 * p.g + 189 * p.b) / 1000),
        g: clamp_channel((349 * p.r + 686 * p.g + 168 * p.b) / 1000),
        b: clamp_channel((272 * p.r + 534 * p.g + 131 * p.b) / 1000),
        a: p.a,
    }
}

/// The luminance of a colour: the weights are ten-thousandths, the sum is
/// rounded down.
pub open spec fn luma(r: u8, g: u8, b: u8) -> u8 {
    ((2126 * r + 7152 * g + 722 * b) / 10000) as u8
}

/// The opaque gray pixel with the luminance of `p` in every colour channel.
pub open spec fn gray_pixel(p: Pixel) -> Pixel {
    Pixel { r: luma(p.r, p.g, p.b), g: luma(p.r, p.g, p.b), b: luma(p.r, p.g, p.b), a: 255 }
}

/// The negative of an image.
pub open spec fn inverted(img: Image) -> Image {
    img.map_pixels(|p: Pixel| invert_pixel(p))
}

/// An image with `value` added to every colour channel.
pub open spec fn brightened(img: Image, value: int) -> Image {
    img.map_pixels(|p: Pixel| brighten_pixel(p, value))
}

/// The sepia tone of an image.
pub open spec fn sepia_toned(img: Image) -> Image {
    img.map_pixels(|p: Pixel| sepia_pixel(p))
}

/// The image in opaque shades of gray.
pub open spec fn grayscaled(img: Image) -> Image {
    img.map_pixels(|p: Pixel| gray_pixel(p))
}

/// A colour transform that needs nothing but the pixel itself.
enum Tone {
    Invert,
    Brighten(i32),
    Sepia,
}

/// Computes `clamp_channel` of `c + value`.
fn shift_channel(c: u8, value: i32) -> (out: u8)
    ensures
        out == clamp_channel(c + value),
{
    let sum: i64 = c as i64 + value as i64;
    if sum < 0 {
        0
    } else if sum > 255 {
        255
    } else {
        sum as u8
    }
}

/// Computes one channel of the sepia tone from its three weights.
fn weigh_channel(p: Pixel, wr: u32, wg: u32, wb: u32) -> (out: u8)
    requires
        wr <= 1000,
        wg <= 1000,
        wb <= 1000,
    ensures
        out == clamp_channel((wr * p.r + wg * p.g + wb * p.b) / 1000),
{
    assert(wr * p.r <= 255000 && wg * p.g <= 255000 && wb * p.b <= 255000) by (nonlinear_arith)
        requires
            wr <= 1000,
            wg <= 1000,
            wb <= 1000,
            p.r <= 255,
            p.g <= 255,
            p.b <= 255,
    ;
    let sum: u32 = wr * (p.r as u32) + wg * (p.g as u32) + wb * (p.b as u32);
    let whole: u32 = sum / 1000;
    if whole > 255 {
        255
    } else {
        whole as u8
    }
}

impl Tone {
    /// What the transform makes of one pixel.
    spec fn of(self, p: Pixel) -> Pixel {
        match self {
            Tone::Invert => invert_pixel(p),
            Tone::Brighten(value) => brighten_pixel(p, value as int),
            Tone::Sepia => sepia_pixel(p),
        }
    }

    /// Computes `of`.
    fn apply(&self, p: Pixel) -> (out: Pixel)
        ensures
            out == self.of(p),
    {
        match self {
            Tone::Invert => Pixel { r: 255 - p.r, g: 255 - p.g, b: 255 - p.b, a: p.a },
            Tone::Brighten(value) => Pixel {
                r: shift_channel(p.r, *value),
                g: shift_channel(p.g, *value),
                b: shift_channel(p.b, *value),
                a: p.a,
            },
            Tone::Sepia => Pixel {
                r: weigh_channel(p, 393, 769, 189),
                g: weigh_channel(p, 349, 686, 168),
                b: weigh_channel(p, 272, 534, 131),
                a: p.a,
            },
        }
    }
}

/// Applies a transform to every pixel.
fn recolor(src: &PixelBuffer, tone: Tone) -> (out: PixelBuffer)
    requires
        src.wf(),
    ensures
        out.wf(),
        out@.width == src@.width,
        out@.height == src@.height,
        forall|i: int| 0 <= i < src@.pixels.len() ==> out@.pixels[i] == tone.of(src@.pixels[i]),
{
    let pixels = src.as_pixels();
    let count = pixels.len();
    let mut toned: Vec<Pixel> = Vec::with_capacity(count);
    let mut i: usize = 0;
    while i < count
        invariant
            i <= count,
            count == pixels@.len(),
            toned@.len() == i,
            forall|k: int| 0 <= k < i ==> toned@[k] == tone.of(pixels@[k]),
        decreases count - i,
    {
        toned.push(tone.apply(pixels[i]));
        i += 1;
    }
    PixelBuffer::assemble(src.width(), src.height(), toned)
}

/// Inverts the colours of the image; alpha is kept.
pub fn invert(buf: &PixelBuffer) -> (out: PixelBuffer)
    requires
        buf.wf(),
    ensures
        out.wf(),
        out@ == inverted(buf@),
{
    let out = recolor(buf, Tone::Invert);
    assert(out@.pixels =~= inverted(buf@).pixels);
    out
}

/// Adds `value` to every colour channel and clamps; alpha is kept. Any
/// `value` is taken: one beyond 255 in size turns every colour channel to
/// white or to black.
pub fn brighten(buf: &PixelBuffer, value: i32) -> (out: PixelBuffer)
    requires
        buf.wf(),
    ensures
        out.wf(),
        out@ == brightened(buf@, value as int),
{
    let out = recolor(buf, Tone::Brighten(value));
    assert(out@.pixels =~= brightened(buf@, value as int).pixels);
    out
}

/// Gives the image a sepia tone; alpha is kept.
pub fn sepia(buf: &PixelBuffer) -> (out: PixelBuffer)
    requires
        buf.wf(),
    ensures
        out.wf(),
        out@ == sepia_toned(buf@),
{
    let out = recolor(buf, Tone::Sepia);
    assert(out@.pixels =~= sepia_toned(buf@).pixels);
    out
}

/// The luminance of every pixel of an RGBA byte layout, one byte per pixel in
/// the same order.
///
/// This is `image::imageops::grayscale` on the bytes read as an 8-bit RGBA
/// image. For such an image that is not empty, that function keeps the
/// dimensions and turns each pixel into the single value
/// `(2126 r + 7152 g + 722 b) / 10000`, computed in 32-bit integers with
/// truncating division; alpha plays no part. On an image with rows but no
/// columns it stops, so both dimensions are positive here.
#[verifier::external_body]
fn luma_plane(raw: &Vec<u8>, width: u32, height: u32) -> (plane: Vec<u8>)
    requires
        0 < width,
        0 < height,
        raw@.len() == 4 * (width * height),
    ensures
        plane@.len() == width * height,
        forall|i: int|
            0 <= i < width * height ==> #[trigger] plane@[i] == luma(
                raw@[4 * i],
                raw@[4 * i + 1],
                raw@[4 * i + 2],
            ),
{
    let rgba = image::ImageBuffer::<image::Rgba<u8>, &[u8]>::from_raw(
        width,
        height,
        raw.as_slice(),
    ).unwrap();
    image::imageops::grayscale(&rgba).into_raw()
}

/// Turns the image into shades of gray. Alpha is dropped: every pixel of the
/// result is opaque.
///
/// The luminance is the integer one of the image crate's `grayscale`,
/// which rounds down. `DynamicImage::to_luma8` of the same crate sums in
/// floating point and rounds to the nearest value instead, and so can give
/// one more: 19 where this gives 18 for the colour (10, 20, 30).
pub fn grayscale(buf: &PixelBuffer) -> (out: PixelBuffer)
    requires
        buf.wf(),
    ensures
        out.wf(),
        out@ == grayscaled(buf@),
{
    let raw = buf.to_raw();
    let plane = luma_plane(&raw, buf.width(), buf.height());
    let count = plane.len();
    let mut gray: Vec<Pixel> = Vec::with_capacity(count);
    let mut i: usize = 0;
    while i < count
        invariant
            i <= count,
            count == plane@.len(),
            count == buf@.pixels.len(),
            gray@.len() == i,
            forall|k: int| 0 <= k < count ==> #[trigger] plane@[k] == luma(
                buf@.pixels[k].r,
                buf@.pixels[k].g,
                buf@.pixels[k].b,
            ),
            forall|k: int| 0 <= k < i ==> gray@[k] == gray_pixel(buf@.pixels[k]),
        decreases count - i,
    {
        let l = plane[i];
        gray.push(Pixel { r: l, g: l, b: l, a: 255 });
        i += 1;
    }
    let out = PixelBuffer::assemble(buf.width(), buf.height(), gray);
    assert(out@.pixels =~= grayscaled(buf@).pixels);
    out
}

} // verus!
