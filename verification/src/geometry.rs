//! Rotation, mirroring and cropping.

use vstd::prelude::*;
use crate::buffer::{
    lemma_from_fn, lemma_images_equal, lemma_index_of_coordinate, Image, Pixel, PixelBuffer,
};
use crate::error::ValidationError;

verus! {

/// The image turned a quarter clockwise: the pixel at `(x, y)` moves to
/// `(height - 1 - y, x)`, and the dimensions swap.
pub open spec fn rotated90(img: Image) -> Image {
    Image::from_fn(img.height, img.width, |x: int, y: int| img.at(y, img.height - 1 - x))
}

/// The image turned by a half: the pixel at `(x, y)` moves to
/// `(width - 1 - x, height - 1 - y)`.
pub open spec fn rotated180(img: Image) -> Image {
    Image::from_fn(
        img.width,
        img.height,
        |x: int, y: int| img.at(img.width - 1 - x, img.height - 1 - y),
    )
}

/// The image turned three quarters clockwise: the pixel at `(x, y)` moves to
/// `(y, width - 1 - x)`, and the dimensions swap.
pub open spec fn rotated270(img: Image) -> Image {
    Image::from_fn(img.height, img.width, |x: int, y: int| img.at(img.width - 1 - y, x))
}

/// The image mirrored left to right.
pub open spec fn flipped_horizontally(img: Image) -> Image {
    Image::from_fn(img.width, img.height, |x: int, y: int| img.at(img.width - 1 - x, y))
}

/// The image mirrored top to bottom.
pub open spec fn flipped_vertically(img: Image) -> Image {
    Image::from_fn(img.width, img.height, |x: int, y: int| img.at(x, img.height - 1 - y))
}

/// The square of edge `size` whose top-left corner is at `(x, y)`.
pub open spec fn cropped(img: Image, x: nat, y: nat, size: nat) -> Image {
    Image::from_fn(size, size, |i: int, j: int| img.at(x + i, y + j))
}

/// The dimensions and the pixels of a quarter turn.
pub proof fn lemma_rotated90(img: Image)
    requires
        img.wf(),
    ensures
        rotated90(img).wf(),
        rotated90(img).width == img.height,
        rotated90(img).height == img.width,
        forall|x: int, y: int|
            0 <= x < img.height && 0 <= y < img.width ==> #[trigger] rotated90(img).at(x, y)
                == img.at(y, img.height - 1 - x),
{
    lemma_from_fn(img.height, img.width, |x: int, y: int| img.at(y, img.height - 1 - x));
}

/// The dimensions and the pixels of a half turn.
pub proof fn lemma_rotated180(img: Image)
    requires
        img.wf(),
    ensures
        rotated180(img).wf(),
        rotated180(img).width == img.width,
        rotated180(img).height == img.height,
        forall|x: int, y: int|
            img.contains(x, y) ==> #[trigger] rotated180(img).at(x, y) == img.at(
                img.width - 1 - x,
                img.height - 1 - y,
            ),
{
    lemma_from_fn(
        img.width,
        img.height,
        |x: int, y: int| img.at(img.width - 1 - x, img.height - 1 - y),
    );
}

/// The dimensions and the pixels of three quarter turns.
pub proof fn lemma_rotated270(img: Image)
    requires
        img.wf(),
    ensures
        rotated270(img).wf(),
        rotated270(img).width == img.height,
        rotated270(img).height == img.width,
        forall|x: int, y: int|
            0 <= x < img.height && 0 <= y < img.width ==> #[trigger] rotated270(img).at(x, y)
                == img.at(img.width - 1 - y, x),
{
    lemma_from_fn(img.height, img.width, |x: int, y: int| img.at(img.width - 1 - y, x));
}

/// The dimensions and the pixels of a mirror image, left to right.
pub proof fn lemma_flipped_horizontally(img: Image)
    requires
        img.wf(),
    ensures
        flipped_horizontally(img).wf(),
        flipped_horizontally(img).width == img.width,
        flipped_horizontally(img).height == img.height,
        forall|x: int, y: int|
            img.contains(x, y) ==> #[trigger] flipped_horizontally(img).at(x, y) == img.at(
                img.width - 1 - x,
                y,
            ),
{
    lemma_from_fn(img.width, img.height, |x: int, y: int| img.at(img.width - 1 - x, y));
}

/// The dimensions and the pixels of a mirror image, top to bottom.
pub proof fn lemma_flipped_vertically(img: Image)
    requires
        img.wf(),
    ensures
        flipped_vertically(img).wf(),
        flipped_vertically(img).width == img.width,
        flipped_vertically(img).height == img.height,
        forall|x: int, y: int|
            img.contains(x, y) ==> #[trigger] flipped_vertically(img).at(x, y) == img.at(
                x,
                img.height - 1 - y,
            ),
{
    lemma_from_fn(img.width, img.height, |x: int, y: int| img.at(x, img.height - 1 - y));
}

/// The dimensions and the pixels of a crop.
pub proof fn lemma_cropped(img: Image, x: nat, y: nat, size: nat)
    requires
        size > 0,
    ensures
        cropped(img, x, y, size).wf(),
        cropped(img, x, y, size).width == size,
        cropped(img, x, y, size).height == size,
        forall|i: int, j: int|
            0 <= i < size && 0 <= j < size ==> #[trigger] cropped(img, x, y, size).at(i, j)
                == img.at(x + i, y + j),
{
    lemma_from_fn(size, size, |i: int, j: int| img.at(x + i, y + j));
}

/// A way of laying the pixels of an image out anew.
enum Layout {
    Rotate90,
    Rotate180,
    Rotate270,
    FlipHorizontal,
    FlipVertical,
    Crop { x: u32, y: u32, size: u32 },
}

impl Layout {
    /// Whether the layout can be taken from an image of these dimensions.
    spec fn admits(self, width: int, height: int) -> bool {
        match self {
            Layout::Crop { x, y, size } => 0 < size && x + size <= width && y + size <= height,
            _ => true,
        }
    }

    /// The width of the result.
    spec fn width(self, width: int, height: int) -> int {
        match self {
            Layout::Rotate90 | Layout::Rotate270 => height,
            Layout::Crop { x, y, size } => size as int,
            _ => width,
        }
    }

    /// The height of the result.
    spec fn height(self, width: int, height: int) -> int {
        match self {
            Layout::Rotate90 | Layout::Rotate270 => width,
            Layout::Crop { x, y, size } => size as int,
            _ => height,
        }
    }

    /// The coordinate in the source from which the result's pixel at `(x, y)` comes.
    spec fn source(self, width: int, height: int, x: int, y: int) -> (int, int) {
        match self {
            Layout::Rotate90 => (y, height - 1 - x),
            Layout::Rotate180 => (width - 1 - x, height - 1 - y),
            Layout::Rotate270 => (width - 1 - y, x),
            Layout::FlipHorizontal => (width - 1 - x, y),
            Layout::FlipVertical => (x, height - 1 - y),
            Layout::Crop { x: left, y: top, size } => (left + x, top + y),
        }
    }

    /// The pixel of `src` that the layout puts at `(x, y)`.
    spec fn placed(self, src: Image, x: int, y: int) -> Pixel {
        let from = self.source(src.width as int, src.height as int, x, y);
        src.at(from.0, from.1)
    }

    /// Computes `source`.
    fn locate(&self, width: u32, height: u32, x: u32, y: u32) -> (at: (u32, u32))
        requires
            self.admits(width as int, height as int),
            0 <= x < self.width(width as int, height as int),
            0 <= y < self.height(width as int, height as int),
        ensures
            (at.0 as int, at.1 as int) == self.source(
                width as int,
                height as int,
                x as int,
                y as int,
            ),
            at.0 < width,
            at.1 < height,
    {
        match self {
            Layout::Rotate90 => (y, height - 1 - x),
            Layout::Rotate180 => (width - 1 - x, height - 1 - y),
            Layout::Rotate270 => (width - 1 - y, x),
            Layout::FlipHorizontal => (width - 1 - x, y),
            Layout::FlipVertical => (x, height - 1 - y),
            Layout::Crop { x: left, y: top, size } => (*left + x, *top + y),
        }
    }

    /// The dimensions of the result.
    fn dimensions(&self, width: u32, height: u32) -> (dims: (u32, u32))
        ensures
            dims.0 == self.width(width as int, height as int),
            dims.1 == self.height(width as int, height as int),
    {
        match self {
            Layout::Rotate90 | Layout::Rotate270 => (height, width),
            Layout::Crop { x, y, size } => (*size, *size),
            _ => (width, height),
        }
    }
}

/// Lays the pixels of `src` out anew.
fn rearrange(src: &PixelBuffer, layout: Layout) -> (out: PixelBuffer)
    requires
        src.wf(),
        layout.admits(src@.width as int, src@.height as int),
    ensures
        out.wf(),
        out@.width == layout.width(src@.width as int, src@.height as int),
        out@.height == layout.height(src@.width as int, src@.height as int),
        forall|x: int, y: int|
            out@.contains(x, y) ==> #[trigger] out@.at(x, y) == layout.placed(src@, x, y),
{
    let width = src.width();
    let height = src.height();
    let (nw, nh) = layout.dimensions(width, height);
    assert(0 < nw && 0 < nh && nw * nh <= width * height) by (nonlinear_arith)
        requires
            0 < width,
            0 < height,
            (nw == width && nh == height) || (nw == height && nh == width) || (0 < nw <= width
                && nw <= height && nh == nw),
    ;
    let mut pixels: Vec<Pixel> = Vec::new();
    let mut y: u32 = 0;
    while y < nh
        invariant
            src.wf(),
            width == src@.width,
            height == src@.height,
            layout.admits(width as int, height as int),
            nw == layout.width(width as int, height as int),
            nh == layout.height(width as int, height as int),
            0 < nw,
            y <= nh,
            pixels@.len() == y * nw,
            forall|i: int|
                0 <= i < pixels@.len() ==> #[trigger] pixels@[i] == layout.placed(
                    src@,
                    i % (nw as int),
                    i / (nw as int),
                ),
        decreases nh - y,
    {
        let mut x: u32 = 0;
        while x < nw
            invariant
                src.wf(),
                width == src@.width,
                height == src@.height,
                layout.admits(width as int, height as int),
                nw == layout.width(width as int, height as int),
                nh == layout.height(width as int, height as int),
                0 < nw,
                y < nh,
                x <= nw,
                pixels@.len() == y * nw + x,
                forall|i: int|
                    0 <= i < pixels@.len() ==> #[trigger] pixels@[i] == layout.placed(
                        src@,
                        i % (nw as int),
                        i / (nw as int),
                    ),
            decreases nw - x,
        {
            let (sx, sy) = layout.locate(width, height, x, y);
            proof {
                lemma_index_of_coordinate(nw as int, nh as int, x as int, y as int);
            }
            pixels.push(src.pixel_at(sx, sy));
            x += 1;
        }
        assert(y * nw + nw == (y + 1) * nw) by (nonlinear_arith);
        y += 1;
    }
    assert(nh * nw == nw * nh) by (nonlinear_arith);
    let out = PixelBuffer::assemble(nw, nh, pixels);
    proof {
        assert forall|x: int, y: int| out@.contains(x, y) implies #[trigger] out@.at(x, y)
            == layout.placed(src@, x, y) by {
            lemma_index_of_coordinate(nw as int, nh as int, x, y);
        }
    }
    out
}

/// Rotates the image a quarter clockwise.
pub fn rotate90(buf: &PixelBuffer) -> (out: PixelBuffer)
    requires
        buf.wf(),
    ensures
        out.wf(),
        out@ == rotated90(buf@),
{
    let out = rearrange(buf, Layout::Rotate90);
    proof {
        lemma_rotated90(buf@);
        lemma_images_equal(out@, rotated90(buf@));
    }
    out
}

/// Rotates the image by a half turn.
pub fn rotate180(buf: &PixelBuffer) -> (out: PixelBuffer)
    requires
        buf.wf(),
    ensures
        out.wf(),
        out@ == rotated180(buf@),
{
    let out = rearrange(buf, Layout::Rotate180);
    proof {
        lemma_rotated180(buf@);
        lemma_images_equal(out@, rotated180(buf@));
    }
    out
}

/// Rotates the image three quarters clockwise, which is a quarter
/// counter-clockwise.
pub fn rotate270(buf: &PixelBuffer) -> (out: PixelBuffer)
    requires
        buf.wf(),
    ensures
        out.wf(),
        out@ == rotated270(buf@),
{
    let out = rearrange(buf, Layout::Rotate270);
    proof {
        lemma_rotated270(buf@);
        lemma_images_equal(out@, rotated270(buf@));
    }
    out
}

/// Mirrors the image left to right.
pub fn fliph(buf: &PixelBuffer) -> (out: PixelBuffer)
    requires
        buf.wf(),
    ensures
        out.wf(),
        out@ == flipped_horizontally(buf@),
{
    let out = rearrange(buf, Layout::FlipHorizontal);
    proof {
        lemma_flipped_horizontally(buf@);
        lemma_images_equal(out@, flipped_horizontally(buf@));
    }
    out
}

/// Mirrors the image top to bottom.
pub fn flipv(buf: &PixelBuffer) -> (out: PixelBuffer)
    requires
        buf.wf(),
    ensures
        out.wf(),
        out@ == flipped_vertically(buf@),
{
    let out = rearrange(buf, Layout::FlipVertical);
    proof {
        lemma_flipped_vertically(buf@);
        lemma_images_equal(out@, flipped_vertically(buf@));
    }
    out
}

/// Cuts out the square of edge `size` whose top-left corner is at `(x, y)`.
///
/// The square must lie inside the image: the width is checked first, then the
/// height. A square of edge 0 that lies inside the image is refused too, since
/// it holds no pixel.
pub fn crop_square(
    buf: &PixelBuffer,
    x: u32,
    y: u32,
    size: u32,
) -> (out: Result<PixelBuffer, ValidationError>)
    requires
        buf.wf(),
    ensures
        x + size > buf@.width ==> out == Err::<PixelBuffer, ValidationError>(
            ValidationError::CropExceedsWidth,
        ),
        x + size <= buf@.width && y + size > buf@.height ==> out == Err::<
            PixelBuffer,
            ValidationError,
        >(ValidationError::CropExceedsHeight),
        x + size <= buf@.width && y + size <= buf@.height && size == 0 ==> out == Err::<
            PixelBuffer,
            ValidationError,
        >(ValidationError::EmptyCrop),
        x + size <= buf@.width && y + size <= buf@.height && size > 0 ==> (out matches Ok(square)
            && square.wf() && square@ == cropped(buf@, x as nat, y as nat, size as nat)),
{
    if x as u64 + size as u64 > buf.width() as u64 {
        return Err(ValidationError::CropExceedsWidth);
    }
    if y as u64 + size as u64 > buf.height() as u64 {
        return Err(ValidationError::CropExceedsHeight);
    }
    if size == 0 {
        return Err(ValidationError::EmptyCrop);
    }
    let square = rearrange(buf, Layout::Crop { x, y, size });
    proof {
        lemma_cropped(buf@, x as nat, y as nat, size as nat);
        lemma_images_equal(square@, cropped(buf@, x as nat, y as nat, size as nat));
    }
    Ok(square)
}

} // verus!
