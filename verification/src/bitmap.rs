//! Captured pixels: RGBA, eight bits a channel, rows from the top down.

use vstd::prelude::*;
use crate::geometry::{Rect, Size};

verus! {

/// An image in memory.
#[derive(Debug, PartialEq, Eq)]
pub struct RgbaBitmap {
    size: Size,
    pixels: Vec<u8>,
}

/// Four bytes for each pixel of `size`.
pub open spec fn byte_count(size: Size) -> int {
    size.height * stride(size)
}

/// The bytes of one row.
pub open spec fn stride(size: Size) -> int {
    4 * size.width
}

/// Whether `inner` lies within an image of `size`.
pub open spec fn fits_in(inner: Rect, size: Size) -> bool {
    &&& inner.origin.x >= 0
    &&& inner.origin.y >= 0
    &&& inner.origin.x + inner.size.width <= size.width
    &&& inner.origin.y + inner.size.height <= size.height
}

/// Whether `cut` holds the bytes of `pixels`, an image of `size`, that lie in
/// `inner`, row by row and byte for byte.
pub open spec fn is_cut(cut: Seq<u8>, pixels: Seq<u8>, size: Size, inner: Rect) -> bool {
    &&& cut.len() == byte_count(inner.size)
    &&& forall|row: int, b: int|
        #![trigger cut[row * stride(inner.size) + b]]
        0 <= row < inner.size.height && 0 <= b < stride(inner.size) ==> cut[row * stride(inner.size)
            + b] == pixels[(inner.origin.y + row) * stride(size) + 4 * inner.origin.x + b]
}

/// A byte of a row within the image is a byte of the image.
pub proof fn lemma_row_index(rows: int, width: int, row: int, b: int)
    requires
        0 <= row < rows,
        0 <= b < width,
    ensures
        0 <= row * width,
        0 <= row * width + b < rows * width,
        row * width + width <= rows * width,
{
    assert(0 <= row * width + b < rows * width && row * width + width <= rows * width && 0 <= row
        * width) by (nonlinear_arith)
        requires
            0 <= row < rows,
            0 <= b < width,
    ;
}

impl RgbaBitmap {
    /// The image's extent.
    pub closed spec fn extent(&self) -> Size {
        self.size
    }

    /// The image's bytes.
    pub closed spec fn bytes(&self) -> Seq<u8> {
        self.pixels@
    }

    /// The bytes are exactly those the extent calls for.
    #[verifier::type_invariant]
    closed spec fn well_formed(&self) -> bool {
        self.pixels@.len() == byte_count(self.size)
    }

    /// An image of `size`, if `pixels` has exactly the bytes for one.
    pub fn from_pixels(size: Size, pixels: Vec<u8>) -> (bitmap: Option<Self>)
        ensures
            match bitmap {
                Some(bitmap) => bitmap.extent() == size && bitmap.bytes() == pixels@
                    && pixels@.len() == byte_count(size),
                None => pixels@.len() != byte_count(size),
            },
    {
        assert(size.height * (4 * size.width) <= 4 * 0xFFFF_FFFF * 0xFFFF_FFFF)
            by (nonlinear_arith)
            requires
                0 <= size.height <= 0xFFFF_FFFF,
                0 <= size.width <= 0xFFFF_FFFF,
        ;
        let needed: u128 = size.height as u128 * (4 * size.width as u128);
        if pixels.len() as u128 == needed {
            Some(RgbaBitmap { size, pixels })
        } else {
            None
        }
    }

    /// The image's bytes, four a pixel.
    pub fn pixels(&self) -> (pixels: &Vec<u8>)
        ensures
            pixels@ == self.bytes(),
            pixels@.len() == byte_count(self.extent()),
    {
        proof {
            use_type_invariant(self);
        }
        &self.pixels
    }

    pub fn size(&self) -> (size: Size)
        ensures
            size == self.extent(),
    {
        self.size
    }

    pub fn width(&self) -> (width: u32)
        ensures
            width == self.extent().width,
    {
        self.size.width
    }

    pub fn height(&self) -> (height: u32)
        ensures
            height == self.extent().height,
    {
        self.size.height
    }

    /// The part of the image in `inner`, byte for byte; refused, never clamped,
    /// where `inner` does not lie within the image.
    pub fn crop(&self, inner: Rect) -> (cut: Option<Self>)
        ensures
            match cut {
                Some(cut) => {
                    &&& fits_in(inner, self.extent())
                    &&& cut.extent() == inner.size
                    &&& is_cut(cut.bytes(), self.bytes(), self.extent(), inner)
                },
                None => !fits_in(inner, self.extent()),
            },
    {
        proof {
            use_type_invariant(self);
        }
        if inner.origin.x < 0 || inner.origin.y < 0 || inner.right() > self.size.width as i64
            || inner.bottom() > self.size.height as i64 {
            return None;
        }
        let left: usize = inner.origin.x as usize;
        let top: usize = inner.origin.y as usize;
        let height: usize = inner.size.height as usize;
        let total: usize = self.pixels.len();
        let mut cut: Vec<u8> = Vec::new();
        let mut row: usize = 0;
        while row < height
            invariant
                row <= height,
                height == inner.size.height,
                left == inner.origin.x,
                top == inner.origin.y,
                fits_in(inner, self.size),
                self.pixels@.len() == byte_count(self.size),
                total == self.pixels@.len(),
                cut@.len() == row * stride(inner.size),
                forall|r: int, b: int|
                    #![trigger cut@[r * stride(inner.size) + b]]
                    0 <= r < row && 0 <= b < stride(inner.size) ==> cut@[r * stride(inner.size) + b]
                        == self.pixels@[(top + r) * stride(self.size) + 4 * left + b],
            decreases height - row,
        {
            let ghost done = cut@;
            let ghost wide = stride(self.size);
            let ghost narrow = stride(inner.size);
            if inner.size.width > 0 {
                proof {
                    lemma_row_index(self.size.height as int, wide, top + row, wide - 1);
                }
                let full: usize = 4 * self.size.width as usize;
                let start: usize = (top + row) * full + 4 * left;
                let len: usize = 4 * inner.size.width as usize;
                let mut b: usize = 0;
                while b < len
                    invariant
                        b <= len,
                        len == narrow,
                        start == (top + row) * wide + 4 * left,
                        start + len <= total,
                        total == self.pixels@.len(),
                        done.len() == row * narrow,
                        cut@.len() == done.len() + b,
                        forall|i: int| 0 <= i < done.len() ==> cut@[i] == done[i],
                        forall|i: int|
                            0 <= i < b ==> cut@[#[trigger] (done.len() + i)] == self.pixels@[start
                                + i],
                    decreases len - b,
                {
                    cut.push(self.pixels[start + b]);
                    b += 1;
                }
            }
            proof {
                assert(row * narrow + narrow == (row + 1) * narrow) by (nonlinear_arith);
                assert(cut@.len() == (row + 1) * narrow);
                assert forall|r: int, b: int|
                    #![trigger cut@[r * narrow + b]]
                    0 <= r < row + 1 && 0 <= b < narrow implies cut@[r * narrow + b]
                    == self.pixels@[(top + r) * wide + 4 * left + b] by {
                    if r < row {
                        lemma_row_index(row as int, narrow, r, b);
                        assert(cut@[r * narrow + b] == done[r * narrow + b]);
                    } else {
                        assert(cut@[done.len() + b] == self.pixels@[(top + row) * wide + 4 * left
                            + b]);
                    }
                }
            }
            row += 1;
        }
        Some(RgbaBitmap { size: inner.size, pixels: cut })
    }
}

// ---------------------------------------------------------------------------
// Laws.
// ---------------------------------------------------------------------------

/// An image has the extent and the bytes it was made of, and one is made exactly
/// where there are four bytes for each of its pixels.
pub proof fn law_an_image_is_what_it_was_made_of(
    size: Size,
    pixels: Vec<u8>,
    made: Option<RgbaBitmap>,
    width: u32,
    height: u32,
    held: &Vec<u8>,
)
    requires
        call_ensures(RgbaBitmap::from_pixels, (size, pixels), made),
        made is Some ==> {
            &&& call_ensures(RgbaBitmap::width, (&made->0,), width)
            &&& call_ensures(RgbaBitmap::height, (&made->0,), height)
            &&& call_ensures(RgbaBitmap::pixels, (&made->0,), held)
        },
    ensures
        made is Some <==> pixels@.len() == 4 * (size.width * size.height),
        made is Some ==> width == size.width && height == size.height && held@ == pixels@,
{
    assert(size.height * (4 * size.width) == 4 * (size.width * size.height)) by (nonlinear_arith);
}

/// What is cut out of an image is what lies there: the pixel at a column and a row
/// of the part is the one as far to the right of and below the part's corner.
pub proof fn law_a_cut_is_what_lies_there(
    image: &RgbaBitmap,
    inner: Rect,
    cut: RgbaBitmap,
    x: int,
    y: int,
    channel: int,
)
    requires
        call_ensures(RgbaBitmap::crop, (image, inner), Some(cut)),
        0 <= x < inner.size.width,
        0 <= y < inner.size.height,
        0 <= channel < 4,
    ensures
        cut.extent() == inner.size,
        cut.bytes().len() == 4 * (inner.size.width * inner.size.height),
        cut.bytes()[4 * (y * inner.size.width + x) + channel] == image.bytes()[4 * ((inner.origin.y
            + y) * image.extent().width + (inner.origin.x + x)) + channel],
{
    let narrow = stride(inner.size);
    let wide = stride(image.extent());
    assert(inner.size.height * (4 * inner.size.width) == 4 * (inner.size.width
        * inner.size.height)) by (nonlinear_arith);
    assert(y * (4 * inner.size.width) == 4 * (y * inner.size.width)) by (nonlinear_arith);
    assert((inner.origin.y + y) * (4 * image.extent().width) == 4 * ((inner.origin.y + y)
        * image.extent().width)) by (nonlinear_arith);
    let b = 4 * x + channel;
    assert(cut.bytes()[y * narrow + b] == image.bytes()[(inner.origin.y + y) * wide + 4
        * inner.origin.x + b]);
}

/// A part is cut out exactly where the whole of it lies within the image: never
/// moved, and never made smaller.
pub proof fn law_only_a_part_of_the_image_is_cut(
    image: &RgbaBitmap,
    inner: Rect,
    cut: Option<RgbaBitmap>,
)
    requires
        call_ensures(RgbaBitmap::crop, (image, inner), cut),
    ensures
        cut is Some <==> (0 <= inner.origin.x && 0 <= inner.origin.y && inner.origin.x
            + inner.size.width <= image.extent().width && inner.origin.y + inner.size.height
            <= image.extent().height),
{
}

/// A picture's size is its width and its height.
pub proof fn law_a_size_is_width_and_height(
    image: &RgbaBitmap,
    size: Size,
    width: u32,
    height: u32,
)
    requires
        call_ensures(RgbaBitmap::size, (image,), size),
        call_ensures(RgbaBitmap::width, (image,), width),
        call_ensures(RgbaBitmap::height, (image,), height),
    ensures
        size.width == width,
        size.height == height,
{
}

} // verus!
