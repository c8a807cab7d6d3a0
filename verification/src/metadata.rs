//! Queries about an image that leave it as it is.

use vstd::prelude::*;
use crate::buffer::PixelBuffer;

verus! {

/// Whether the ratio of `width` to `height` lies within two percent of one:
/// `0.98 <= width / height <= 1.02`, both ends included, taken exactly.
pub open spec fn square_ish(width: nat, height: nat) -> bool {
    98 * height <= 100 * width <= 102 * height
}

/// The width and the height of the image, in this order.
pub fn get_dimensions(buf: &PixelBuffer) -> (dims: (u32, u32))
    ensures
        dims.0 == buf@.width,
        dims.1 == buf@.height,
{
    (buf.width(), buf.height())
}

/// Whether the image is square within a tolerance of two percent.
pub fn is_square_ish(buf: &PixelBuffer) -> (yes: bool)
    ensures
        yes == square_ish(buf@.width, buf@.height),
{
    let width = buf.width() as u64;
    let height = buf.height() as u64;
    98 * height <= 100 * width && 100 * width <= 102 * height
}

} // verus!
