//! Decoded images.
//!
//! An image reaches the layer decoded: width, height and four bytes (red,
//! green, blue, alpha) per pixel, row after row from the top. The driver
//! counts rows from the bottom, so an image that comes from a file is flipped
//! before it is uploaded.

use vstd::prelude::*;

verus! {

use crate::error::{Error, Failure};

/// The mathematical content of a [`PixelBuffer`].
pub struct Image {
    pub width: nat,
    pub height: nat,
    pub pixels: Seq<u8>,
}

/// An image is well formed when it holds four bytes for each of its pixels
/// and the driver can count its columns and rows.
pub open spec fn well_formed(image: Image) -> bool {
    &&& image.width <= i32::MAX
    &&& image.height <= i32::MAX
    &&& image.pixels.len() == 4 * image.width * image.height
}

/// Where component `c` of the pixel in column `x` and row `y` lies in the
/// pixel data of an image `width` pixels wide.
pub open spec fn offset(width: nat, x: int, y: int, c: int) -> int {
    (y * width + x) * 4 + c
}

/// `after` holds the rows of `before` in reverse order: each pixel of
/// `before` is found in `after` in the same column, as far from the bottom as
/// it was from the top.
pub open spec fn is_flip(width: nat, height: nat, before: Seq<u8>, after: Seq<u8>) -> bool {
    &&& after.len() == before.len()
    &&& forall|x: int, y: int, c: int|
        0 <= x < width && 0 <= y < height && 0 <= c < 4 ==> after[offset(
            width,
            x,
            height - 1 - y,
            c,
        )] == before[#[trigger] offset(width, x, y, c)]
}

/// The place in the pixel data from which place `i` is filled when the rows
/// are reversed: the same place within the row, in the row as far from the
/// other end.
pub open spec fn mirrored(width: nat, height: nat, i: int) -> int {
    (height - 1 - i / (4 * width) as int) * (4 * width) + i % (4 * width) as int
}

/// The pixel data with its rows in reverse order.
pub open spec fn flipped(width: nat, height: nat, pixels: Seq<u8>) -> Seq<u8> {
    Seq::new(pixels.len(), |i: int| pixels[mirrored(width, height, i)])
}

/// The image with its rows in reverse order.
pub open spec fn flipped_image(image: Image) -> Image {
    Image {
        width: image.width,
        height: image.height,
        pixels: flipped(image.width, image.height, image.pixels),
    }
}

/// A place and its mirror image lie in the same data, and the mirror image of
/// the mirror image is the place itself.
pub proof fn lemma_mirrored_twice(width: nat, height: nat, i: int)
    requires
        0 <= i < 4 * width * height,
    ensures
        0 <= mirrored(width, height, i) < 4 * width * height,
        mirrored(width, height, mirrored(width, height, i)) == i,
        mirrored(width, height, i) / (4 * width) as int == height - 1 - i / (4 * width) as int,
        mirrored(width, height, i) % (4 * width) as int == i % (4 * width) as int,
{
    let row = (4 * width) as int;
    assert(row > 0) by (nonlinear_arith)
        requires
            0 <= i < 4 * width * height,
            row == 4 * width,
    ;
    let q = i / row;
    let r = i % row;
    vstd::arithmetic::div_mod::lemma_fundamental_div_mod(i, row);
    vstd::arithmetic::div_mod::lemma_mod_bound(i, row);
    assert(0 <= q < height) by (nonlinear_arith)
        requires
            i == row * q + r,
            0 <= r < row,
            0 <= i < row * height,
    ;
    let m = mirrored(width, height, i);
    assert(m == (height - 1 - q) * row + r);
    vstd::arithmetic::div_mod::lemma_fundamental_div_mod_converse(m, row, height - 1 - q, r);
    assert(0 <= m < 4 * width * height) by (nonlinear_arith)
        requires
            m == (height - 1 - q) * row + r,
            0 <= q < height,
            0 <= r < row,
            row == 4 * width,
    ;
    assert((height - 1 - (height - 1 - q)) * row + r == i) by (nonlinear_arith)
        requires
            i == row * q + r,
    ;
}

/// Reversing the rows twice gives the image back.
pub proof fn lemma_flipped_twice(width: nat, height: nat, pixels: Seq<u8>)
    requires
        pixels.len() == 4 * width * height,
    ensures
        flipped(width, height, flipped(width, height, pixels)) == pixels,
{
    let once = flipped(width, height, pixels);
    let twice = flipped(width, height, once);
    assert forall|i: int| 0 <= i < pixels.len() implies twice[i] == pixels[i] by {
        lemma_mirrored_twice(width, height, i);
    }
    assert(twice =~= pixels);
}

/// Reversing the rows moves each pixel within its column: what is in row `y`
/// afterwards was in row `height - 1 - y` before, component by component.
pub proof fn lemma_flipped_pixel(
    width: nat,
    height: nat,
    pixels: Seq<u8>,
    x: int,
    y: int,
    c: int,
)
    requires
        pixels.len() == 4 * width * height,
        0 <= x < width,
        0 <= y < height,
        0 <= c < 4,
    ensures
        0 <= offset(width, x, y, c) < pixels.len(),
        0 <= offset(width, x, height - 1 - y, c) < pixels.len(),
        flipped(width, height, pixels)[offset(width, x, y, c)] == pixels[offset(
            width,
            x,
            height - 1 - y,
            c,
        )],
{
    lemma_offset_in_row(width, height, x, y, c);
    lemma_offset_in_row(width, height, x, height - 1 - y, c);
}

/// The place of a pixel component, taken apart again: it lies in the data, in
/// row `y`, at `4 * x + c` within the row.
proof fn lemma_offset_in_row(width: nat, height: nat, x: int, y: int, c: int)
    requires
        0 <= x < width,
        0 <= y < height,
        0 <= c < 4,
    ensures
        0 <= offset(width, x, y, c) < 4 * width * height,
        offset(width, x, y, c) / (4 * width) as int == y,
        offset(width, x, y, c) % (4 * width) as int == 4 * x + c,
        mirrored(width, height, offset(width, x, y, c)) == offset(width, x, height - 1 - y, c),
{
    let row = (4 * width) as int;
    let i = offset(width, x, y, c);
    assert(i == y * row + (4 * x + c)) by (nonlinear_arith)
        requires
            i == (y * width + x) * 4 + c,
            row == 4 * width,
    ;
    assert(0 <= 4 * x + c < row);
    vstd::arithmetic::div_mod::lemma_fundamental_div_mod_converse(i, row, y, 4 * x + c);
    assert(0 <= i < 4 * width * height) by (nonlinear_arith)
        requires
            i == y * row + (4 * x + c),
            0 <= 4 * x + c < row,
            0 <= y < height,
            row == 4 * width,
    ;
    assert(offset(width, x, height - 1 - y, c) == (height - 1 - y) * row + (4 * x + c))
        by (nonlinear_arith)
        requires
            row == 4 * width,
    ;
}

/// Pixel data that relates to `before` as its flip is the flip of `before`.
pub proof fn lemma_flip_is_flipped(width: nat, height: nat, before: Seq<u8>, after: Seq<u8>)
    requires
        before.len() == 4 * width * height,
        is_flip(width, height, before, after),
    ensures
        after == flipped(width, height, before),
{
    let row = (4 * width) as int;
    assert forall|i: int| 0 <= i < before.len() implies after[i] == before[mirrored(
        width,
        height,
        i,
    )] by {
        lemma_mirrored_twice(width, height, i);
        let m = mirrored(width, height, i);
        let q = m / row;
        let r = m % row;
        let x = r / 4;
        let c = r % 4;
        assert(row > 0) by (nonlinear_arith)
            requires
                0 <= i < 4 * width * height,
                row == 4 * width,
        ;
        vstd::arithmetic::div_mod::lemma_fundamental_div_mod(m, row);
        vstd::arithmetic::div_mod::lemma_mod_bound(m, row);
        assert(0 <= q < height) by (nonlinear_arith)
            requires
                m == row * q + r,
                0 <= r < row,
                0 <= m < row * height,
        ;
        assert(0 <= x < width && 0 <= c < 4 && r == 4 * x + c);
        assert(offset(width, x, q, c) == m) by (nonlinear_arith)
            requires
                m == row * q + r,
                r == 4 * x + c,
                row == 4 * width,
        ;
        lemma_offset_in_row(width, height, x, q, c);
        assert(offset(width, x, height - 1 - q, c) == i);
    }
    assert(after =~= flipped(width, height, before));
}

/// A decoded image, ready for upload. It is made once and not changed.
#[derive(Debug, PartialEq, Eq)]
pub struct PixelBuffer {
    width: u32,
    height: u32,
    data: Vec<u8>,
}

impl View for PixelBuffer {
    type V = Image;

    closed spec fn view(&self) -> Image {
        Image { width: self.width as nat, height: self.height as nat, pixels: self.data@ }
    }
}

impl PixelBuffer {
    #[verifier::type_invariant]
    spec fn sound(self) -> bool {
        well_formed(self@)
    }

    /// Makes a pixel buffer of `width` by `height` pixels from RGBA bytes,
    /// rows from the top. Fails with `InvalidArgument` unless there are four
    /// bytes for each pixel and neither dimension exceeds `i32::MAX`.
    pub fn new(width: u32, height: u32, data: Vec<u8>) -> (made: Result<PixelBuffer, Error>)
        ensures
            match made {
                Ok(image) => {
                    &&& image@ == (Image {
                        width: width as nat,
                        height: height as nat,
                        pixels: data@,
                    })
                    &&& well_formed(image@)
                },
                Err(error) => {
                    &&& error@ == Failure::InvalidArgument
                    &&& !well_formed(
                        Image { width: width as nat, height: height as nat, pixels: data@ },
                    )
                },
            },
    {
        if width > 0x7FFF_FFFF || height > 0x7FFF_FFFF {
            return Err(Error::InvalidArgument);
        }
        assert(4 * width * height <= u64::MAX) by (nonlinear_arith)
            requires
                width <= 0x7FFF_FFFF,
                height <= 0x7FFF_FFFF,
        ;
        assert(4 * width <= u64::MAX);
        let expected: u64 = 4 * (width as u64) * (height as u64);
        if data.len() as u64 != expected {
            return Err(Error::InvalidArgument);
        }
        Ok(PixelBuffer { width, height, data })
    }

    /// The number of pixels in a row.
    pub fn width(&self) -> (width: u32)
        ensures
            width == self@.width,
    {
        self.width
    }

    /// The number of rows.
    pub fn height(&self) -> (height: u32)
        ensures
            height == self@.height,
    {
        self.height
    }

    /// Gives up the buffer for its width, its height and its bytes.
    pub fn into_raw(self) -> (raw: (u32, u32, Vec<u8>))
        ensures
            raw.0 == self@.width,
            raw.1 == self@.height,
            raw.2@ == self@.pixels,
            well_formed(self@),
    {
        proof {
            use_type_invariant(&self);
        }
        (self.width, self.height, self.data)
    }

    /// The RGBA bytes, rows from the top: four for each pixel.
    pub fn pixels(&self) -> (pixels: &Vec<u8>)
        ensures
            pixels@ == self@.pixels,
            well_formed(self@),
    {
        proof {
            use_type_invariant(self);
        }
        &self.data
    }

}

/// Reversing the rows of an image without pixels leaves nothing to move.
pub proof fn lemma_flipped_empty(width: nat, height: nat, pixels: Seq<u8>)
    requires
        pixels.len() == 0,
    ensures
        flipped(width, height, pixels) == pixels,
{
    assert(flipped(width, height, pixels) =~= pixels);
}

/// Calls `image::imageops::flip_vertical` on the bytes taken as an image of
/// `width` by `height` RGBA pixels (`image::RgbaImage::from_raw`), and hands
/// back the bytes of the result (`into_raw`). Both dimensions are at least 1,
/// so that four times the width, which the image crate computes before it
/// looks at the height, is no more than the length of the data. Believed of
/// it: the result is as long as the input, and each pixel of the input is
/// found in it in the same column, in the row counted from the other end.
#[verifier::external_body]
fn flip_rows(width: u32, height: u32, data: Vec<u8>) -> (out: Vec<u8>)
    requires
        width > 0,
        height > 0,
        data@.len() == 4 * width * height,
    ensures
        is_flip(width as nat, height as nat, data@, out@),
{
    let image = image::RgbaImage::from_raw(width, height, data).unwrap();
    image::imageops::flip_vertical(&image).into_raw()
}

/// The image with its rows in reverse order. An image without pixels is
/// handed back as it is.
pub fn flip_vertical(image: PixelBuffer) -> (out: PixelBuffer)
    ensures
        out@ == flipped_image(image@),
{
    proof {
        use_type_invariant(&image);
    }
    let ghost before = image@;
    if image.width == 0 || image.height == 0 {
        proof {
            assert(before.pixels.len() == 0) by (nonlinear_arith)
                requires
                    before.pixels.len() == 4 * before.width * before.height,
                    before.width == 0 || before.height == 0,
            ;
            lemma_flipped_empty(before.width, before.height, before.pixels);
        }
        return image;
    }
    let PixelBuffer { width, height, data } = image;
    let out = flip_rows(width, height, data);
    proof {
        lemma_flip_is_flipped(width as nat, height as nat, before.pixels, out@);
    }
    PixelBuffer { width, height, data: out }
}

} // verus!
