//! Laws that relate the operations to one another.

use vstd::prelude::*;
use crate::buffer::{lemma_images_equal, Image, PixelBuffer};
use crate::color::inverted;
use crate::selector::{composed, lemma_composed, SelectorKind};
use crate::geometry::{
    flipped_horizontally, flipped_vertically, lemma_flipped_horizontally,
    lemma_flipped_vertically, lemma_rotated180, lemma_rotated270, lemma_rotated90, rotated180,
    rotated270, rotated90,
};

verus! {

/// Four quarter turns bring every image back to itself, pixel for pixel.
pub proof fn lemma_rotate90_four_times(buf: PixelBuffer)
    requires
        buf.wf(),
    ensures
        rotated90(rotated90(rotated90(rotated90(buf@)))) == buf@,
{
    let once = rotated90(buf@);
    let twice = rotated90(once);
    let thrice = rotated90(twice);
    let back = rotated90(thrice);
    lemma_rotated90(buf@);
    lemma_rotated90(once);
    lemma_rotated90(twice);
    lemma_rotated90(thrice);
    assert forall|x: int, y: int| back.contains(x, y) implies back.at(x, y) == buf@.at(x, y) by {
        let w = buf@.width as int;
        let h = buf@.height as int;
        assert(back.at(x, y) == thrice.at(y, w - 1 - x));
        assert(thrice.at(y, w - 1 - x) == twice.at(w - 1 - x, h - 1 - y));
        assert(twice.at(w - 1 - x, h - 1 - y) == once.at(h - 1 - y, x));
        assert(once.at(h - 1 - y, x) == buf@.at(x, y));
    }
    lemma_images_equal(back, buf@);
}

/// Two quarter turns are a half turn.
pub proof fn lemma_rotate90_twice_is_rotate180(buf: PixelBuffer)
    requires
        buf.wf(),
    ensures
        rotated90(rotated90(buf@)) == rotated180(buf@),
{
    let once = rotated90(buf@);
    let twice = rotated90(once);
    let half = rotated180(buf@);
    lemma_rotated90(buf@);
    lemma_rotated90(once);
    lemma_rotated180(buf@);
    assert forall|x: int, y: int| twice.contains(x, y) implies twice.at(x, y) == half.at(x, y) by {
        let w = buf@.width as int;
        let h = buf@.height as int;
        assert(twice.at(x, y) == once.at(y, w - 1 - x));
        assert(once.at(y, w - 1 - x) == buf@.at(w - 1 - x, h - 1 - y));
    }
    lemma_images_equal(twice, half);
}

/// Three quarter turns clockwise are the turn by 270 degrees.
pub proof fn lemma_rotate90_thrice_is_rotate270(buf: PixelBuffer)
    requires
        buf.wf(),
    ensures
        rotated90(rotated90(rotated90(buf@))) == rotated270(buf@),
{
    let once = rotated90(buf@);
    let twice = rotated90(once);
    let thrice = rotated90(twice);
    let three_quarters = rotated270(buf@);
    lemma_rotated90(buf@);
    lemma_rotated90(once);
    lemma_rotated90(twice);
    lemma_rotated270(buf@);
    assert forall|x: int, y: int| thrice.contains(x, y) implies thrice.at(x, y)
        == three_quarters.at(x, y) by {
        let w = buf@.width as int;
        let h = buf@.height as int;
        assert(thrice.at(x, y) == twice.at(y, h - 1 - x));
        assert(twice.at(y, h - 1 - x) == once.at(h - 1 - x, w - 1 - y));
        assert(once.at(h - 1 - x, w - 1 - y) == buf@.at(w - 1 - y, x));
    }
    lemma_images_equal(thrice, three_quarters);
}

/// Mirroring an image left to right twice gives the image back.
pub proof fn lemma_fliph_twice(buf: PixelBuffer)
    requires
        buf.wf(),
    ensures
        flipped_horizontally(flipped_horizontally(buf@)) == buf@,
{
    let once = flipped_horizontally(buf@);
    let back = flipped_horizontally(once);
    lemma_flipped_horizontally(buf@);
    lemma_flipped_horizontally(once);
    assert forall|x: int, y: int| back.contains(x, y) implies back.at(x, y) == buf@.at(x, y) by {
        let w = buf@.width as int;
        assert(back.at(x, y) == once.at(w - 1 - x, y));
        assert(once.at(w - 1 - x, y) == buf@.at(x, y));
    }
    lemma_images_equal(back, buf@);
}

/// Mirroring an image top to bottom twice gives the image back.
pub proof fn lemma_flipv_twice(buf: PixelBuffer)
    requires
        buf.wf(),
    ensures
        flipped_vertically(flipped_vertically(buf@)) == buf@,
{
    let once = flipped_vertically(buf@);
    let back = flipped_vertically(once);
    lemma_flipped_vertically(buf@);
    lemma_flipped_vertically(once);
    assert forall|x: int, y: int| back.contains(x, y) implies back.at(x, y) == buf@.at(x, y) by {
        let h = buf@.height as int;
        assert(back.at(x, y) == once.at(x, h - 1 - y));
        assert(once.at(x, h - 1 - y) == buf@.at(x, y));
    }
    lemma_images_equal(back, buf@);
}

/// A composite has the dimensions of the user's image, whatever the selector
/// and whatever image the overlay has become.
pub proof fn lemma_composite_has_user_dimensions(
    user: PixelBuffer,
    overlay: Image,
    kind: SelectorKind,
)
    requires
        user.wf(),
    ensures
        composed(user@, overlay, kind).wf(),
        composed(user@, overlay, kind).width == user@.width,
        composed(user@, overlay, kind).height == user@.height,
{
    lemma_composed(user@, overlay, kind);
}

/// Inverting an image twice gives the image back.
pub proof fn lemma_invert_twice(buf: PixelBuffer)
    requires
        buf.wf(),
    ensures
        inverted(inverted(buf@)) == buf@,
{
    assert(inverted(inverted(buf@)).pixels =~= buf@.pixels);
}

} // verus!
