//! The pixel buffer and its mathematical model.

use vstd::prelude::*;
use vstd::arithmetic::div_mod::lemma_fundamental_div_mod_converse;

verus! {

/// One pixel: red, green, blue and alpha, eight bits each.
#[derive(Clone, Copy, Debug, PartialEq, Eq, Structural)]
pub struct Pixel {
    pub r: u8,
    pub g: u8,
    pub b: u8,
    pub a: u8,
}

impl Pixel {
    /// The channel at position `c` of the byte layout: 0 red, 1 green, 2 blue, 3 alpha.
    pub open spec fn channel(self, c: int) -> u8 {
        if c == 0 {
            self.r
        } else if c == 1 {
            self.g
        } else if c == 2 {
            self.b
        } else {
            self.a
        }
    }
}

/// The mathematical model of a raster image: its dimensions and its pixels in
/// row-major order.
pub struct Image {
    pub width: nat,
    pub height: nat,
    pub pixels: Seq<Pixel>,
}

impl Image {
    /// Both dimensions are positive and there is exactly one pixel per coordinate.
    pub open spec fn wf(self) -> bool {
        &&& self.width > 0
        &&& self.height > 0
        &&& self.pixels.len() == self.width * self.height
    }

    /// Whether `(x, y)` is a coordinate of this image.
    pub open spec fn contains(self, x: int, y: int) -> bool {
        0 <= x < self.width && 0 <= y < self.height
    }

    /// The pixel in column `x` of row `y`.
    pub open spec fn at(self, x: int, y: int) -> Pixel {
        self.pixels[y * self.width + x]
    }

    /// The image of the given dimensions whose pixel at `(x, y)` is `f(x, y)`.
    pub open spec fn from_fn(width: nat, height: nat, f: spec_fn(int, int) -> Pixel) -> Image {
        Image {
            width,
            height,
            pixels: Seq::new(
                width * height,
                |i: int| f(i % (width as int), i / (width as int)),
            ),
        }
    }

    /// The image with the same dimensions whose every pixel is `f` of the pixel
    /// at the same coordinate.
    pub open spec fn map_pixels(self, f: spec_fn(Pixel) -> Pixel) -> Image {
        Image { width: self.width, height: self.height, pixels: self.pixels.map_values(f) }
    }

    /// The dense byte layout: four bytes per pixel, R, G, B, A, pixels in row-major order.
    pub open spec fn bytes(self) -> Seq<u8> {
        Seq::new(4 * self.pixels.len(), |i: int| self.pixels[i / 4].channel(i % 4))
    }
}

/// A coordinate inside a `width` x `height` grid has a row-major index inside
/// the grid, and the index determines the coordinate.
pub proof fn lemma_index_of_coordinate(width: int, height: int, x: int, y: int)
    requires
        0 <= x < width,
        0 <= y < height,
    ensures
        0 <= y * width + x < width * height,
        (y * width + x) % width == x,
        (y * width + x) / width == y,
{
    assert(0 <= y * width + x < width * height) by (nonlinear_arith)
        requires
            0 <= x < width,
            0 <= y < height,
    ;
    lemma_fundamental_div_mod_converse(y * width + x, width, y, x);
}

/// A row-major index inside a `width` x `height` grid splits into a coordinate
/// inside the grid.
pub proof fn lemma_coordinate_of_index(width: int, height: int, i: int)
    requires
        0 < width,
        0 <= i < width * height,
    ensures
        0 <= i % width < width,
        0 <= i / width < height,
        i == (i / width) * width + i % width,
{
    assert(0 <= i % width < width && 0 <= i / width < height && i == (i / width) * width + i
        % width) by (nonlinear_arith)
        requires
            0 < width,
            0 <= i < width * height,
    ;
}

/// `Image::from_fn` yields a well-formed image with the pixels it was given.
pub proof fn lemma_from_fn(width: nat, height: nat, f: spec_fn(int, int) -> Pixel)
    requires
        width > 0,
        height > 0,
    ensures
        Image::from_fn(width, height, f).wf(),
        Image::from_fn(width, height, f).width == width,
        Image::from_fn(width, height, f).height == height,
        forall|x: int, y: int|
            0 <= x < width && 0 <= y < height ==> #[trigger] Image::from_fn(width, height, f).at(
                x,
                y,
            ) == f(x, y),
{
    let img = Image::from_fn(width, height, f);
    assert forall|x: int, y: int| 0 <= x < width && 0 <= y < height implies #[trigger] img.at(
        x,
        y,
    ) == f(x, y) by {
        lemma_index_of_coordinate(width as int, height as int, x, y);
    }
}

/// Two well-formed images of the same dimensions that agree at every
/// coordinate are the same image.
pub proof fn lemma_images_equal(a: Image, b: Image)
    requires
        a.wf(),
        b.wf(),
        a.width == b.width,
        a.height == b.height,
        forall|x: int, y: int| a.contains(x, y) ==> a.at(x, y) == b.at(x, y),
    ensures
        a == b,
{
    assert forall|i: int| 0 <= i < a.pixels.len() implies a.pixels[i] == b.pixels[i] by {
        let w = a.width as int;
        lemma_coordinate_of_index(w, a.height as int, i);
        assert(a.contains(i % w, i / w));
        assert(a.at(i % w, i / w) == b.at(i % w, i / w));
    }
    assert(a.pixels =~= b.pixels);
}

/// A decoded raster image: its dimensions and one `Pixel` per coordinate, in
/// row-major order.
#[derive(Clone, Debug, PartialEq, Eq)]
pub struct PixelBuffer {
    width: u32,
    height: u32,
    pixels: Vec<Pixel>,
}

impl View for PixelBuffer {
    type V = Image;

    closed spec fn view(&self) -> Image {
        Image { width: self.width as nat, height: self.height as nat, pixels: self.pixels@ }
    }
}

/// Whether a buffer of these dimensions can exist: both are positive, both fit
/// in 32 bits, and the byte layout of four bytes per pixel fits in memory.
pub open spec fn valid_dimensions(width: nat, height: nat) -> bool {
    &&& 0 < width <= u32::MAX
    &&& 0 < height <= u32::MAX
    &&& 4 * (width * height) <= usize::MAX
}

/// Decides `valid_dimensions`.
pub fn check_dimensions(width: u32, height: u32) -> (ok: bool)
    ensures
        ok == valid_dimensions(width as nat, height as nat),
{
    if width == 0 || height == 0 {
        return false;
    }
    assert(width * height <= 0xffff_ffff * 0xffff_ffff) by (nonlinear_arith)
        requires
            width <= 0xffff_ffff,
            height <= 0xffff_ffff,
    ;
    let count: u64 = (width as u64) * (height as u64);
    let limit: u64 = (usize::MAX / 4) as u64;
    count <= limit
}

impl PixelBuffer {
    /// The invariant of a buffer: its model is well formed and its dimensions
    /// are valid.
    pub open spec fn wf(&self) -> bool {
        &&& self@.wf()
        &&& valid_dimensions(self@.width, self@.height)
    }

    /// Builds a buffer from its pixels in row-major order, or `None` when the
    /// dimensions are not valid or do not match the number of pixels.
    pub fn from_pixels(width: u32, height: u32, pixels: Vec<Pixel>) -> (out: Option<PixelBuffer>)
        ensures
            out.is_some() <==> valid_dimensions(width as nat, height as nat) && pixels@.len()
                == width * height,
            out matches Some(buf) ==> buf.wf() && buf@ == (Image {
                width: width as nat,
                height: height as nat,
                pixels: pixels@,
            }),
    {
        if !check_dimensions(width, height) {
            return None;
        }
        let count: usize = (width as usize) * (height as usize);
        if pixels.len() != count {
            return None;
        }
        Some(PixelBuffer { width, height, pixels })
    }

    /// Builds a buffer from rows of pixels whose number is known to match the
    /// dimensions.
    pub(crate) fn assemble(width: u32, height: u32, pixels: Vec<Pixel>) -> (out: PixelBuffer)
        requires
            valid_dimensions(width as nat, height as nat),
            pixels@.len() == width * height,
        ensures
            out.wf(),
            out@ == (Image { width: width as nat, height: height as nat, pixels: pixels@ }),
    {
        PixelBuffer { width, height, pixels }
    }

    /// Builds a buffer from the dense byte layout, four bytes per pixel, or
    /// `None` when the dimensions are not valid or the length is not four times
    /// the number of pixels.
    pub fn from_raw(width: u32, height: u32, data: Vec<u8>) -> (out: Option<PixelBuffer>)
        ensures
            out.is_some() <==> valid_dimensions(width as nat, height as nat) && data@.len() == 4
                * (width * height),
            out matches Some(buf) ==> buf.wf() && buf@.width == width && buf@.height == height
                && buf@.bytes() == data@,
    {
        if !check_dimensions(width, height) {
            return None;
        }
        let count: usize = (width as usize) * (height as usize);
        if data.len() != 4 * count {
            return None;
        }
        let mut pixels: Vec<Pixel> = Vec::with_capacity(count);
        let mut i: usize = 0;
        while i < count
            invariant
                i <= count,
                4 * count <= usize::MAX,
                data@.len() == 4 * count,
                pixels@.len() == i,
                forall|k: int|
                    0 <= k < i ==> #[trigger] pixels@[k] == (Pixel {
                        r: data@[4 * k],
                        g: data@[4 * k + 1],
                        b: data@[4 * k + 2],
                        a: data@[4 * k + 3],
                    }),
            decreases count - i,
        {
            pixels.push(
                Pixel { r: data[4 * i], g: data[4 * i + 1], b: data[4 * i + 2], a: data[4 * i + 3] },
            );
            i += 1;
        }
        let buf = PixelBuffer { width, height, pixels };
        proof {
            assert forall|j: int| 0 <= j < data@.len() implies buf@.bytes()[j] == data@[j] by {
                let k = j / 4;
                assert(buf@.pixels[k] == pixels@[k]);
            }
            assert(buf@.bytes() =~= data@);
        }
        Some(buf)
    }

    /// The dense byte layout of the buffer, four bytes per pixel.
    pub fn to_raw(&self) -> (raw: Vec<u8>)
        requires
            self.wf(),
        ensures
            raw@ == self@.bytes(),
            raw@.len() == 4 * (self@.width * self@.height),
    {
        let count: usize = self.pixels.len();
        let mut raw: Vec<u8> = Vec::with_capacity(4 * count);
        let mut i: usize = 0;
        while i < count
            invariant
                i <= count,
                count == self.pixels@.len(),
                4 * count <= usize::MAX,
                raw@.len() == 4 * i,
                forall|j: int|
                    0 <= j < 4 * i ==> #[trigger] raw@[j] == self.pixels@[j / 4].channel(j % 4),
            decreases count - i,
        {
            let p = self.pixels[i];
            raw.push(p.r);
            raw.push(p.g);
            raw.push(p.b);
            raw.push(p.a);
            i += 1;
        }
        assert(raw@ =~= self@.bytes());
        raw
    }

    /// A copy of the buffer.
    pub fn duplicate(&self) -> (out: PixelBuffer)
        requires
            self.wf(),
        ensures
            out.wf(),
            out@ == self@,
    {
        let count = self.pixels.len();
        let mut pixels: Vec<Pixel> = Vec::with_capacity(count);
        let mut i: usize = 0;
        while i < count
            invariant
                i <= count,
                count == self.pixels@.len(),
                pixels@.len() == i,
                forall|k: int| 0 <= k < i ==> pixels@[k] == self.pixels@[k],
            decreases count - i,
        {
            pixels.push(self.pixels[i]);
            i += 1;
        }
        assert(pixels@ =~= self.pixels@);
        PixelBuffer { width: self.width, height: self.height, pixels }
    }

    /// The pixels in row-major order.
    pub fn as_pixels(&self) -> (pixels: &Vec<Pixel>)
        ensures
            pixels@ == self@.pixels,
    {
        &self.pixels
    }

    /// The number of columns.
    pub fn width(&self) -> (w: u32)
        ensures
            w == self@.width,
    {
        self.width
    }

    /// The number of rows.
    pub fn height(&self) -> (h: u32)
        ensures
            h == self@.height,
    {
        self.height
    }

    /// The pixel in column `x` of row `y`.
    pub fn pixel_at(&self, x: u32, y: u32) -> (p: Pixel)
        requires
            self.wf(),
            self@.contains(x as int, y as int),
        ensures
            p == self@.at(x as int, y as int),
    {
        proof {
            lemma_index_of_coordinate(self.width as int, self.height as int, x as int, y as int);
        }
        let row: usize = (y as usize) * (self.width as usize);
        self.pixels[row + x as usize]
    }

    /// The pixel in column `x` of row `y`, or `None` outside the image.
    pub fn get_pixel(&self, x: u32, y: u32) -> (p: Option<Pixel>)
        requires
            self.wf(),
        ensures
            p == if self@.contains(x as int, y as int) {
                Some(self@.at(x as int, y as int))
            } else {
                None
            },
    {
        if x < self.width && y < self.height {
            Some(self.pixel_at(x, y))
        } else {
            None
        }
    }
}

} // verus!
