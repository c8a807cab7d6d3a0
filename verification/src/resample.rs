//! Resampling a buffer to other dimensions.

use vstd::prelude::*;
use crate::buffer::PixelBuffer;

verus! {

/// The longest side, in pixels, that the filter takes or gives. Up to this
/// length every column and row index, and every pixel centre, is exact in
/// single precision, and a position scaled from one image to the other is off
/// by at most an eighth of a pixel.
pub const MAX_FILTER_SIDE: u32 = 1_048_576;

/// Whether the filter can take an image of `src_width` x `src_height` to
/// `width` x `height`: no image is empty, no side is longer than
/// `MAX_FILTER_SIDE`, and neither the result, at four bytes per pixel, nor the
/// intermediate image of `src_width` x `height` pixels, at sixteen bytes per
/// pixel, is larger than an allocation can be.
pub open spec fn filter_fits(src_width: nat, src_height: nat, width: nat, height: nat) -> bool {
    &&& 0 < src_width <= MAX_FILTER_SIDE
    &&& 0 < src_height <= MAX_FILTER_SIDE
    &&& 0 < width <= MAX_FILTER_SIDE
    &&& 0 < height <= MAX_FILTER_SIDE
    &&& 4 * (width * height) <= isize::MAX
    &&& 16 * (src_width * height) <= isize::MAX
}

/// Whether an image of `src_width` x `src_height` can be resampled to `width`
/// x `height`: it has these dimensions already, so that nothing is left to do,
/// or the filter can take it there.
pub open spec fn resample_fits(src_width: nat, src_height: nat, width: nat, height: nat) -> bool {
    (width == src_width && height == src_height) || filter_fits(
        src_width,
        src_height,
        width,
        height,
    )
}

/// Decides `resample_fits` for a source buffer.
pub fn can_resample(src: &PixelBuffer, width: u32, height: u32) -> (ok: bool)
    requires
        src.wf(),
    ensures
        ok == resample_fits(src@.width, src@.height, width as nat, height as nat),
{
    let src_width = src.width();
    let src_height = src.height();
    if width == src_width && height == src_height {
        return true;
    }
    if width == 0 || height == 0 {
        return false;
    }
    if src_width > MAX_FILTER_SIDE || src_height > MAX_FILTER_SIDE || width > MAX_FILTER_SIDE
        || height > MAX_FILTER_SIDE {
        return false;
    }
    assert(width * height <= 0x10_0000 * 0x10_0000 && src_width * height <= 0x10_0000 * 0x10_0000)
        by (nonlinear_arith)
        requires
            width <= 0x10_0000,
            height <= 0x10_0000,
            src_width <= 0x10_0000,
    ;
    let limit: u64 = isize::MAX as u64;
    let result_bytes: u64 = 4 * ((width as u64) * (height as u64));
    let between_bytes: u64 = 16 * ((src_width as u64) * (height as u64));
    result_bytes <= limit && between_bytes <= limit
}

/// An RGBA byte layout resampled with the Lanczos filter of window 3.
///
/// This is `image::imageops::resize` with `FilterType::Lanczos3` on the bytes
/// read as an 8-bit RGBA image of `width` x `height`. For a source that is not
/// empty that function returns an image of exactly the dimensions asked for,
/// whatever the aspect ratio of the source; the clause on the length says so.
/// Nothing is said of the pixels of the result: the filter works in floating
/// point.
///
/// `filter_fits` leaves out the inputs on which the function stops:
/// - It allocates an intermediate image of `width` x `new_height` pixels of
///   four 32-bit channels, and the result; both stay within an allocation.
/// - It works in two passes, rows then columns. For each pixel of a pass it
///   scales the pixel's centre to the source in single precision, weighs the
///   source pixels within three (scaled) pixels of that position, and divides
///   the weights by their sum. With no side longer than `MAX_FILTER_SIDE` the
///   position is off by at most an eighth of a pixel, so the source pixel under
///   the centre is among those weighed, at no more than five eighths of a
///   pixel from the position; the sum is then at least a third of the scale and
///   never zero. On longer sides the position can fall so far off that every
///   weight is zero, and the function stops on the quotient.
#[verifier::external_body]
fn lanczos3(
    raw: &Vec<u8>,
    width: u32,
    height: u32,
    new_width: u32,
    new_height: u32,
) -> (out: Vec<u8>)
    requires
        raw@.len() == 4 * (width * height),
        filter_fits(width as nat, height as nat, new_width as nat, new_height as nat),
    ensures
        out@.len() == 4 * (new_width * new_height),
{
    let rgba = image::ImageBuffer::<image::Rgba<u8>, &[u8]>::from_raw(
        width,
        height,
        raw.as_slice(),
    ).unwrap();
    let filter = image::imageops::FilterType::Lanczos3;
    image::imageops::resize(&rgba, new_width, new_height, filter).into_raw()
}

/// Resamples `src` to exactly `width` x `height` with a high-quality filter.
/// The aspect ratio is not kept: the image is stretched to fit. A source that
/// has these dimensions already is copied as it is.
pub fn resample(src: &PixelBuffer, width: u32, height: u32) -> (out: PixelBuffer)
    requires
        src.wf(),
        resample_fits(src@.width, src@.height, width as nat, height as nat),
    ensures
        out.wf(),
        out@.width == width,
        out@.height == height,
        width == src@.width && height == src@.height ==> out@ == src@,
{
    if width == src.width() && height == src.height() {
        return src.duplicate();
    }
    let raw = src.to_raw();
    let resized = lanczos3(&raw, src.width(), src.height(), width, height);
    PixelBuffer::from_raw(width, height, resized).unwrap()
}

} // verus!
