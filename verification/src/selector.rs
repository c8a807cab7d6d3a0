//! Compositing two images pixel by pixel under a selector: a rule that says,
//! for each coordinate, which of the two images gives the pixel.

use vstd::prelude::*;
use crate::buffer::{
    lemma_from_fn, lemma_images_equal, lemma_index_of_coordinate, Image, Pixel, PixelBuffer,
};
use crate::resample::{resample, resample_fits};

verus! {

/// The built-in selectors. Each divides the image in two; the first image, the
/// user's, shows where the selector holds, the overlay elsewhere.
#[derive(Clone, Copy, Debug, PartialEq, Eq, Structural)]
pub enum SelectorKind {
    /// The user's image in the top half.
    TopBottom,
    /// The user's image in the left half.
    LeftRight,
    /// The user's image above the diagonal from the top left to the bottom right.
    DiagonalTlBr,
    /// The user's image above the diagonal from the top right to the bottom left.
    DiagonalTrBl,
    /// The overlay in the top half, the user's image below.
    FilterTop,
    /// The overlay in the bottom half, the user's image above.
    FilterBottom,
    /// The overlay in the left half, the user's image to the right.
    FilterLeft,
    /// The overlay in the right half, the user's image to the left.
    FilterRight,
}

impl SelectorKind {
    /// Whether the user's image gives the pixel at `(x, y)` of a `width` x
    /// `height` composite. Halves are taken by integer division, so with an odd
    /// dimension the middle row or column falls to the lower or right part.
    pub open spec fn selects_user(self, x: nat, y: nat, width: nat, height: nat) -> bool {
        match self {
            SelectorKind::TopBottom => y < height / 2,
            SelectorKind::LeftRight => x < width / 2,
            SelectorKind::DiagonalTlBr => y * width < x * height,
            SelectorKind::DiagonalTrBl => y * width < (width - x) * height,
            SelectorKind::FilterTop => y >= height / 2,
            SelectorKind::FilterBottom => y < height / 2,
            SelectorKind::FilterLeft => x >= width / 2,
            SelectorKind::FilterRight => x < width / 2,
        }
    }

    /// Decides `selects_user`.
    pub fn selects(&self, x: u32, y: u32, width: u32, height: u32) -> (user: bool)
        ensures
            user == self.selects_user(x as nat, y as nat, width as nat, height as nat),
    {
        match self {
            SelectorKind::TopBottom | SelectorKind::FilterBottom => y < height / 2,
            SelectorKind::LeftRight | SelectorKind::FilterRight => x < width / 2,
            SelectorKind::FilterTop => y >= height / 2,
            SelectorKind::FilterLeft => x >= width / 2,
            SelectorKind::DiagonalTlBr => {
                assert(y * width <= 0xffff_ffff * 0xffff_ffff && x * height <= 0xffff_ffff
                    * 0xffff_ffff) by (nonlinear_arith)
                    requires
                        x <= 0xffff_ffff,
                        y <= 0xffff_ffff,
                        width <= 0xffff_ffff,
                        height <= 0xffff_ffff,
                ;
                (y as u64) * (width as u64) < (x as u64) * (height as u64)
            },
            SelectorKind::DiagonalTrBl => {
                if x >= width {
                    assert((width - x) * height <= 0 <= y * width) by (nonlinear_arith)
                        requires
                            width - x <= 0,
                            0 <= height,
                            0 <= y,
                            0 <= width,
                    ;
                    false
                } else {
                    let rest: u32 = width - x;
                    assert(y * width <= 0xffff_ffff * 0xffff_ffff && rest * height <= 0xffff_ffff
                        * 0xffff_ffff) by (nonlinear_arith)
                        requires
                            rest <= 0xffff_ffff,
                            y <= 0xffff_ffff,
                            width <= 0xffff_ffff,
                            height <= 0xffff_ffff,
                    ;
                    (y as u64) * (width as u64) < (rest as u64) * (height as u64)
                }
            },
        }
    }
}

/// The pixel of a composite at `(x, y)`: the user's pixel where the selector
/// holds, the overlay's pixel elsewhere, copied as it is.
pub open spec fn composed_pixel(
    user: Image,
    overlay: Image,
    kind: SelectorKind,
    x: int,
    y: int,
) -> Pixel {
    if kind.selects_user(x as nat, y as nat, user.width, user.height) {
        user.at(x, y)
    } else {
        overlay.at(x, y)
    }
}

/// The composite of two images of the same dimensions.
pub open spec fn composed(user: Image, overlay: Image, kind: SelectorKind) -> Image {
    Image::from_fn(
        user.width,
        user.height,
        |x: int, y: int| composed_pixel(user, overlay, kind, x, y),
    )
}

/// What `composed` holds at each coordinate, and its dimensions.
pub proof fn lemma_composed(user: Image, overlay: Image, kind: SelectorKind)
    requires
        user.wf(),
    ensures
        composed(user, overlay, kind).wf(),
        composed(user, overlay, kind).width == user.width,
        composed(user, overlay, kind).height == user.height,
        forall|x: int, y: int|
            user.contains(x, y) ==> #[trigger] composed(user, overlay, kind).at(x, y)
                == composed_pixel(user, overlay, kind, x, y),
{
    lemma_from_fn(
        user.width,
        user.height,
        |x: int, y: int| composed_pixel(user, overlay, kind, x, y),
    );
}

/// Composes two buffers of the same dimensions under a selector.
pub fn compose(user: &PixelBuffer, overlay: &PixelBuffer, kind: SelectorKind) -> (out: PixelBuffer)
    requires
        user.wf(),
        overlay.wf(),
        overlay@.width == user@.width,
        overlay@.height == user@.height,
    ensures
        out.wf(),
        out@ == composed(user@, overlay@, kind),
{
    let width = user.width();
    let height = user.height();
    let mut pixels: Vec<Pixel> = Vec::new();
    let mut y: u32 = 0;
    while y < height
        invariant
            user.wf(),
            overlay.wf(),
            overlay@.width == user@.width,
            overlay@.height == user@.height,
            width == user@.width,
            height == user@.height,
            y <= height,
            pixels@.len() == y * width,
            forall|i: int|
                0 <= i < pixels@.len() ==> #[trigger] pixels@[i] == composed_pixel(
                    user@,
                    overlay@,
                    kind,
                    i % (width as int),
                    i / (width as int),
                ),
        decreases height - y,
    {
        let mut x: u32 = 0;
        while x < width
            invariant
                user.wf(),
                overlay.wf(),
                overlay@.width == user@.width,
                overlay@.height == user@.height,
                width == user@.width,
                height == user@.height,
                y < height,
                x <= width,
                pixels@.len() == y * width + x,
                forall|i: int|
                    0 <= i < pixels@.len() ==> #[trigger] pixels@[i] == composed_pixel(
                        user@,
                        overlay@,
                        kind,
                        i % (width as int),
                        i / (width as int),
                    ),
            decreases width - x,
        {
            proof {
                lemma_index_of_coordinate(width as int, height as int, x as int, y as int);
            }
            let p = if kind.selects(x, y, width, height) {
                user.pixel_at(x, y)
            } else {
                overlay.pixel_at(x, y)
            };
            pixels.push(p);
            x += 1;
        }
        assert(y * width + width == (y + 1) * width) by (nonlinear_arith);
        y += 1;
    }
    assert(height * width == width * height) by (nonlinear_arith);
    let out = PixelBuffer::assemble(width, height, pixels);
    proof {
        lemma_composed(user@, overlay@, kind);
        assert forall|x: int, y: int| out@.contains(x, y) implies out@.at(x, y) == composed(
            user@,
            overlay@,
            kind,
        ).at(x, y) by {
            lemma_index_of_coordinate(width as int, height as int, x, y);
        }
        lemma_images_equal(out@, composed(user@, overlay@, kind));
    }
    out
}

/// Combines the user's image with an overlay under a selector. The overlay is
/// first resampled to the user's dimensions, whatever its own; the result has
/// the user's dimensions. An overlay that has the user's dimensions already is
/// taken as it is, and then nothing more is asked of the two images.
pub fn combine_selector(
    user: &PixelBuffer,
    overlay: &PixelBuffer,
    kind: SelectorKind,
) -> (out: PixelBuffer)
    requires
        user.wf(),
        overlay.wf(),
        resample_fits(overlay@.width, overlay@.height, user@.width, user@.height),
    ensures
        out.wf(),
        out@.width == user@.width,
        out@.height == user@.height,
        overlay@.width == user@.width && overlay@.height == user@.height ==> out@ == composed(
            user@,
            overlay@,
            kind,
        ),
        exists|fitted: Image|
            fitted.wf() && fitted.width == user@.width && fitted.height == user@.height && out@
                == composed(user@, fitted, kind),
        forall|x: int, y: int|
            user@.contains(x, y) && kind.selects_user(
                x as nat,
                y as nat,
                user@.width,
                user@.height,
            ) ==> #[trigger] out@.at(x, y) == user@.at(x, y),
{
    let fitted = resample(overlay, user.width(), user.height());
    let out = compose(user, &fitted, kind);
    proof {
        lemma_composed(user@, fitted@, kind);
    }
    out
}

} // verus!
