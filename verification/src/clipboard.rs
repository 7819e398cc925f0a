//! What goes on the clipboard, byte for byte, and the order in which it is put
//! there.

use vstd::prelude::*;
use crate::bitmap::RgbaBitmap;
use crate::bitmap;
use crate::geometry::Size;
use crate::text::push_decimal;
use crate::text;

verus! {

/// The format number of a bitmap with a version 5 header.
pub const CF_DIBV5: u32 = 17;

/// The length of a version 5 header.
pub const HEADER_LEN: u32 = 124;

/// The channels lie where the masks say.
pub const BI_BITFIELDS: u32 = 3;

/// The colours are sRGB.
pub const LCS_S_RGB: u32 = 0x7352_4742;

/// The rendering intent for pictures.
pub const LCS_GM_IMAGES: u32 = 4;

// ---------------------------------------------------------------------------
// The pixels.
// ---------------------------------------------------------------------------

/// Where the byte at `b` of a row lies once red and blue have changed places.
pub open spec fn swapped(b: int) -> int {
    if b % 4 == 0 {
        b + 2
    } else if b % 4 == 2 {
        b - 2
    } else {
        b
    }
}

/// Whether `out` holds `pixels`, an image of `size`, with the rows from the
/// bottom up and each pixel as blue, green, red, alpha.
pub open spec fn is_bottom_up_bgra(out: Seq<u8>, pixels: Seq<u8>, size: Size) -> bool {
    &&& out.len() == bitmap::byte_count(size)
    &&& forall|row: int, b: int|
        #![trigger out[row * bitmap::stride(size) + b]]
        0 <= row < size.height && 0 <= b < bitmap::stride(size) ==> out[row * bitmap::stride(size)
            + b] == pixels[(size.height - 1 - row) * bitmap::stride(size) + swapped(b)]
}

/// The image's pixels from the bottom up, as blue, green, red, alpha.
pub fn bottom_up_bgra(image: &RgbaBitmap) -> (out: Vec<u8>)
    ensures
        is_bottom_up_bgra(out@, image.bytes(), image.extent()),
{
    let pixels = image.pixels();
    let ghost size = image.extent();
    let ghost stride = bitmap::stride(size);
    let total: usize = pixels.len();
    let width: usize = image.width() as usize;
    let height: usize = image.height() as usize;
    let mut out: Vec<u8> = Vec::with_capacity(total);
    let mut row: usize = 0;
    while row < height
        invariant
            row <= height,
            width == size.width,
            height == size.height,
            stride == bitmap::stride(size),
            total == pixels@.len(),
            total == bitmap::byte_count(size),
            out@.len() == row * stride,
            forall|r: int, b: int|
                #![trigger out@[r * stride + b]]
                0 <= r < row && 0 <= b < stride ==> out@[r * stride + b] == pixels@[(size.height - 1
                    - r) * stride + swapped(b)],
        decreases height - row,
    {
        let ghost done = out@;
        if width > 0 {
            proof {
                bitmap::lemma_row_index(
                    size.height as int,
                    stride,
                    size.height - 1 - row,
                    stride - 1,
                );
            }
            let full: usize = 4 * width;
            let start: usize = (height - 1 - row) * full;
            let mut x: usize = 0;
            while x < width
                invariant
                    x <= width,
                    stride == 4 * width,
                    start == (size.height - 1 - row) * stride,
                    start + stride <= total,
                    total == pixels@.len(),
                    out@.len() == done.len() + 4 * x,
                    forall|i: int| 0 <= i < done.len() ==> out@[i] == done[i],
                    forall|b: int|
                        0 <= b < 4 * x ==> out@[#[trigger] (done.len() + b)] == pixels@[start
                            + swapped(b)],
                decreases width - x,
            {
                let at: usize = start + 4 * x;
                let ghost before = out@;
                out.push(pixels[at + 2]);
                out.push(pixels[at + 1]);
                out.push(pixels[at]);
                out.push(pixels[at + 3]);
                assert forall|b: int| 0 <= b < 4 * (x + 1) implies out@[#[trigger] (done.len() + b)]
                    == pixels@[start + swapped(b)] by {
                    if b < 4 * x {
                        assert(before[done.len() + b] == pixels@[start + swapped(b)]);
                    } else {
                        assert(b == 4 * x || b == 4 * x + 1 || b == 4 * x + 2 || b == 4 * x + 3);
                    }
                }
                x += 1;
            }
        }
        proof {
            assert(row * stride + stride == (row + 1) * stride) by (nonlinear_arith);
            assert forall|r: int, b: int|
                #![trigger out@[r * stride + b]]
                0 <= r < row + 1 && 0 <= b < stride implies out@[r * stride + b] == pixels@[(
            size.height - 1 - r) * stride + swapped(b)] by {
                if r < row {
                    bitmap::lemma_row_index(row as int, stride, r, b);
                    assert(out@[r * stride + b] == done[r * stride + b]);
                } else {
                    assert(out@[done.len() + b] == pixels@[(size.height - 1 - row) * stride
                        + swapped(b)]);
                }
            }
        }
        row += 1;
    }
    out
}

// ---------------------------------------------------------------------------
// The header.
// ---------------------------------------------------------------------------

/// A number as four bytes, the lowest first.
pub open spec fn le32(n: int) -> Seq<u8> {
    seq![
        (n % 0x100) as u8,
        (n / 0x100 % 0x100) as u8,
        (n / 0x1_0000 % 0x100) as u8,
        (n / 0x100_0000 % 0x100) as u8,
    ]
}

/// Some zero bytes.
pub open spec fn zeros(count: nat) -> Seq<u8> {
    Seq::new(count, |i: int| 0u8)
}

/// The version 5 header of a picture: bottom-up, one plane of 32 bits, four
/// channel masks, sRGB, no profile.
pub open spec fn header(size: Size, image_bytes: int) -> Seq<u8> {
    le32(HEADER_LEN as int) + le32(size.width as int) + le32(size.height as int) + le32(
        0x20_0001,
    ) + le32(BI_BITFIELDS as int) + le32(image_bytes) + zeros(16) + le32(0x00FF_0000) + le32(
        0x0000_FF00,
    ) + le32(0x0000_00FF) + le32(0xFF00_0000) + le32(LCS_S_RGB as int) + zeros(48) + le32(
        LCS_GM_IMAGES as int,
    ) + zeros(12)
}

/// Appends a number as four bytes, the lowest first.
fn push_le32(out: &mut Vec<u8>, n: u32)
    ensures
        final(out)@ == old(out)@ + le32(n as int),
{
    out.push((n % 0x100) as u8);
    out.push((n / 0x100 % 0x100) as u8);
    out.push((n / 0x1_0000 % 0x100) as u8);
    out.push((n / 0x100_0000 % 0x100) as u8);
    assert(out@ =~= old(out)@ + le32(n as int));
}

/// Appends some zero bytes.
fn push_zeros(out: &mut Vec<u8>, count: usize)
    ensures
        final(out)@ == old(out)@ + zeros(count as nat),
{
    let mut i: usize = 0;
    while i < count
        invariant
            i <= count,
            out@ == old(out)@ + zeros(i as nat),
        decreases count - i,
    {
        out.push(0);
        i += 1;
        assert(out@ =~= old(out)@ + zeros(i as nat));
    }
    assert(out@ =~= old(out)@ + zeros(count as nat));
}

/// The version 5 header of a picture.
fn header_bytes(size: Size, image_bytes: u32) -> (out: Vec<u8>)
    ensures
        out@ == header(size, image_bytes as int),
{
    let mut out: Vec<u8> = Vec::new();
    push_le32(&mut out, HEADER_LEN);
    push_le32(&mut out, size.width);
    push_le32(&mut out, size.height);
    push_le32(&mut out, 0x20_0001);
    push_le32(&mut out, BI_BITFIELDS);
    push_le32(&mut out, image_bytes);
    push_zeros(&mut out, 16);
    push_le32(&mut out, 0x00FF_0000);
    push_le32(&mut out, 0x0000_FF00);
    push_le32(&mut out, 0x0000_00FF);
    push_le32(&mut out, 0xFF00_0000);
    push_le32(&mut out, LCS_S_RGB);
    push_zeros(&mut out, 48);
    push_le32(&mut out, LCS_GM_IMAGES);
    push_zeros(&mut out, 12);
    assert(out@ =~= header(size, image_bytes as int));
    out
}

/// Why a picture cannot be put in a bitmap of this kind, if it cannot.
pub open spec fn dib_refusal(size: Size) -> Option<&'static str> {
    if size.width > i32::MAX {
        Some("capture width overflows a DIB")
    } else if size.height > i32::MAX {
        Some("capture height overflows a DIB")
    } else if bitmap::byte_count(size) > u32::MAX {
        Some("capture overflows a DIB's image size")
    } else {
        None
    }
}

/// Whether `dib` is the picture as a packed bitmap: the header, then the
/// pixels.
pub open spec fn is_dib(dib: Seq<u8>, pixels: Seq<u8>, size: Size) -> bool {
    &&& dib.len() == HEADER_LEN + bitmap::byte_count(size)
    &&& dib.take(HEADER_LEN as int) == header(size, bitmap::byte_count(size))
    &&& is_bottom_up_bgra(dib.skip(HEADER_LEN as int), pixels, size)
}

/// The picture as a packed bitmap with a version 5 header and a real alpha
/// channel.
pub fn dibv5_bytes(image: &RgbaBitmap) -> (dib: Result<Vec<u8>, &'static str>)
    ensures
        match dib {
            Ok(dib) => dib_refusal(image.extent()) is None && is_dib(
                dib@,
                image.bytes(),
                image.extent(),
            ),
            Err(reason) => dib_refusal(image.extent()) == Some(reason),
        },
{
    let size = image.size();
    if size.width > i32::MAX as u32 {
        return Err("capture width overflows a DIB");
    }
    if size.height > i32::MAX as u32 {
        return Err("capture height overflows a DIB");
    }
    let pixels = bottom_up_bgra(image);
    let total: usize = pixels.len();
    if total as u64 > u32::MAX as u64 {
        return Err("capture overflows a DIB's image size");
    }
    let mut dib = header_bytes(size, total as u32);
    assert(dib@.len() == HEADER_LEN);
    let ghost head = dib@;
    let mut i: usize = 0;
    while i < total
        invariant
            i <= total,
            total == pixels@.len(),
            dib@ == head + pixels@.take(i as int),
        decreases total - i,
    {
        dib.push(pixels[i]);
        i += 1;
        assert(dib@ =~= head + pixels@.take(i as int));
    }
    assert(pixels@.take(total as int) =~= pixels@);
    assert(dib@.take(HEADER_LEN as int) =~= head);
    assert(dib@.skip(HEADER_LEN as int) =~= pixels@);
    Ok(dib)
}

// ---------------------------------------------------------------------------
// Putting it there.
// ---------------------------------------------------------------------------

/// How far publishing to the clipboard has come.
#[derive(Debug, PartialEq, Eq)]
pub enum Publish {
    /// Open the clipboard.
    Open,
    /// Empty it.
    Empty,
    /// Put the bitmap there.
    SetDib,
    /// Put the PNG there.
    SetPng,
    /// Close it; this is what came of it.
    Close(Result<(), String>),
    /// Nothing left to do; this is what came of it.
    Finished(Result<(), String>),
}

/// Publishing starts by opening the clipboard.
impl Default for Publish {
    fn default() -> (step: Self)
        ensures
            step == Publish::Open,
    {
        Publish::Open
    }
}

/// Whether `next` is the step after `step`, given what came of it.
pub open spec fn publish_follows(
    step: Publish,
    result: Result<(), String>,
    next: Publish,
) -> bool {
    match step {
        Publish::Open => match result {
            Ok(_) => next == Publish::Empty,
            Err(_) => next matches Publish::Finished(Err(reason)) && reason@
                == "could not open the clipboard"@,
        },
        Publish::Empty => match result {
            Ok(_) => next == Publish::SetDib,
            Err(_) => next matches Publish::Close(Err(reason)) && reason@
                == "could not empty the clipboard"@,
        },
        Publish::SetDib => match result {
            Ok(_) => next == Publish::SetPng,
            Err(_) => next == Publish::Close(result),
        },
        Publish::SetPng => next == Publish::Close(result),
        Publish::Close(outcome) => next == Publish::Finished(outcome),
        Publish::Finished(outcome) => next == Publish::Finished(outcome),
    }
}

/// The step after `step`, given what came of it. The bitmap goes before the
/// PNG, and once the clipboard is open it is closed on every path.
pub fn publish_clipboard(step: Publish, result: Result<(), String>) -> (next: Publish)
    ensures
        publish_follows(step, result, next),
{
    match step {
        Publish::Open => match result {
            Ok(_) => Publish::Empty,
            Err(_) => Publish::Finished(Err("could not open the clipboard".to_owned())),
        },
        Publish::Empty => match result {
            Ok(_) => Publish::SetDib,
            Err(_) => Publish::Close(Err("could not empty the clipboard".to_owned())),
        },
        Publish::SetDib => match result {
            Ok(_) => Publish::SetPng,
            Err(reason) => Publish::Close(Err(reason)),
        },
        Publish::SetPng => Publish::Close(result),
        Publish::Close(outcome) => Publish::Finished(outcome),
        Publish::Finished(outcome) => Publish::Finished(outcome),
    }
}

/// How far handing one format to the clipboard has come.
#[derive(Debug, PartialEq, Eq)]
pub enum Handover {
    /// Allocate memory for it.
    Allocate,
    /// Lock the memory.
    Lock,
    /// Copy the bytes in, unlock, and hand it over.
    HandOver,
    /// Free the memory, which is still ours; this is what went wrong.
    Free(String),
    /// Nothing left to do; this is what came of it.
    Finished(Result<(), String>),
}

/// Whether `next` is the step after `step`, given whether it worked.
pub open spec fn handover_follows(format: u32, step: Handover, ok: bool, next: Handover) -> bool {
    let number = text::decimal(format as nat);
    match step {
        Handover::Allocate => if ok {
            next == Handover::Lock
        } else {
            next matches Handover::Finished(Err(reason)) && reason@
                == "could not allocate clipboard memory for format "@ + number
        },
        Handover::Lock => if ok {
            next == Handover::HandOver
        } else {
            next matches Handover::Free(reason) && reason@
                == "could not lock clipboard memory for format "@ + number
        },
        Handover::HandOver => if ok {
            next == Handover::Finished(Ok(()))
        } else {
            next matches Handover::Free(reason) && reason@ == "could not publish clipboard format "@
                + number
        },
        Handover::Free(reason) => next == Handover::Finished(Err(reason)),
        Handover::Finished(outcome) => next == Handover::Finished(outcome),
    }
}

/// A sentence that ends in a format's number.
fn about_format(sentence: &str, format: u32) -> (reason: String)
    ensures
        reason@ == sentence@ + text::decimal(format as nat),
{
    let mut reason = sentence.to_owned();
    push_decimal(&mut reason, format as u128);
    reason
}

/// The step after `step`, given whether it worked. The memory is freed exactly
/// where it was allocated and not handed over.
pub fn set_clipboard_data(format: u32, step: Handover, ok: bool) -> (next: Handover)
    ensures
        handover_follows(format, step, ok, next),
{
    match step {
        Handover::Allocate => if ok {
            Handover::Lock
        } else {
            Handover::Finished(
                Err(about_format("could not allocate clipboard memory for format ", format)),
            )
        },
        Handover::Lock => if ok {
            Handover::HandOver
        } else {
            Handover::Free(about_format("could not lock clipboard memory for format ", format))
        },
        Handover::HandOver => if ok {
            Handover::Finished(Ok(()))
        } else {
            Handover::Free(about_format("could not publish clipboard format ", format))
        },
        Handover::Free(reason) => Handover::Finished(Err(reason)),
        Handover::Finished(outcome) => Handover::Finished(outcome),
    }
}

// ---------------------------------------------------------------------------
// Laws.
// ---------------------------------------------------------------------------

/// Turning a picture round twice gives it back: nothing is lost on the way to
/// the clipboard.
pub proof fn law_bottom_up_bgra_undoes_itself(
    pixels: Seq<u8>,
    once: Seq<u8>,
    twice: Seq<u8>,
    size: Size,
)
    requires
        pixels.len() == bitmap::byte_count(size),
        is_bottom_up_bgra(once, pixels, size),
        is_bottom_up_bgra(twice, once, size),
    ensures
        twice == pixels,
{
    let stride = bitmap::stride(size);
    assert forall|i: int| 0 <= i < pixels.len() implies twice[i] == pixels[i] by {
        assert(stride > 0) by {
            assert(size.height * stride > 0 ==> stride > 0) by (nonlinear_arith)
                requires
                    size.height >= 0,
                    stride >= 0,
            ;
        }
        let row = i / stride;
        let b = i % stride;
        assert(0 <= row < size.height && 0 <= b < stride && i == row * stride + b)
            by (nonlinear_arith)
            requires
                0 <= i < size.height * stride,
                stride > 0,
                row == i / stride,
                b == i % stride,
        ;
        let other = size.height - 1 - row;
        assert(0 <= swapped(b) < stride);
        assert(swapped(swapped(b)) == b);
        assert(twice[row * stride + b] == once[other * stride + swapped(b)]);
        assert(once[other * stride + swapped(b)] == pixels[row * stride + b]);
    }
    assert(twice =~= pixels);
}

/// The header is as long as it says, and names the bytes that follow it.
pub proof fn law_the_header_describes_the_bitmap(dib: Seq<u8>, pixels: Seq<u8>, size: Size)
    requires
        is_dib(dib, pixels, size),
    ensures
        dib.subrange(0, 4) == le32(HEADER_LEN as int),
        dib.subrange(4, 8) == le32(size.width as int),
        dib.subrange(8, 12) == le32(size.height as int),
        dib.subrange(20, 24) == le32(dib.len() - HEADER_LEN),
{
    let head = header(size, bitmap::byte_count(size));
    assert(head.len() == HEADER_LEN);
    assert(dib.subrange(0, 4) =~= head.subrange(0, 4));
    assert(dib.subrange(4, 8) =~= head.subrange(4, 8));
    assert(dib.subrange(8, 12) =~= head.subrange(8, 12));
    assert(dib.subrange(20, 24) =~= head.subrange(20, 24));
    assert(head.subrange(0, 4) =~= le32(HEADER_LEN as int));
    assert(head.subrange(4, 8) =~= le32(size.width as int));
    assert(head.subrange(8, 12) =~= le32(size.height as int));
    assert(head.subrange(20, 24) =~= le32(bitmap::byte_count(size)));
}

/// An open clipboard is closed on every path: publishing is finished only from
/// a clipboard that could not be opened, or after closing it.
pub proof fn law_an_open_clipboard_is_closed(step: Publish, result: Result<(), String>, next: Publish)
    requires
        publish_follows(step, result, next),
        next is Finished,
        !(step is Finished),
    ensures
        (step == Publish::Open && result is Err) || step is Close,
{
}

/// Publishing succeeds only if every step did.
pub proof fn law_publishing_succeeds_only_whole(
    step: Publish,
    result: Result<(), String>,
    next: Publish,
)
    requires
        publish_follows(step, result, next),
    ensures
        next matches Publish::Close(Ok(_)) ==> step == Publish::SetPng && result is Ok,
        next == Publish::SetPng ==> step == Publish::SetDib && result is Ok,
        next == Publish::SetDib ==> step == Publish::Empty && result is Ok,
        next == Publish::Empty ==> step == Publish::Open && result is Ok,
{
}

/// Memory that was handed over is never freed, and memory that was allocated
/// and not handed over always is.
pub proof fn law_memory_is_freed_exactly_when_ours(
    format: u32,
    step: Handover,
    ok: bool,
    next: Handover,
)
    requires
        handover_follows(format, step, ok, next),
        !(step is Finished),
    ensures
        next is Free <==> !ok && (step == Handover::Lock || step == Handover::HandOver),
        next matches Handover::Finished(Ok(_)) ==> step == Handover::HandOver && ok,
        next matches Handover::Finished(Err(_)) ==> (step == Handover::Allocate && !ok)
            || step is Free,
{
}

/// A pixel keeps its column: in the row as far from the bottom as the picture's own
/// is from the top, the pixel of the same column, as blue, green, red and alpha.
pub proof fn law_a_pixel_keeps_its_column(
    image: &RgbaBitmap,
    out: Vec<u8>,
    row: int,
    x: int,
)
    requires
        call_ensures(bottom_up_bgra, (image,), out),
        0 <= row < image.extent().height,
        0 <= x < image.extent().width,
    ensures
        ({
            let width = image.extent().width;
            let height = image.extent().height;
            let to = 4 * (row * width + x);
            let from = 4 * ((height - 1 - row) * width + x);
            &&& out@.len() == 4 * (width * height)
            &&& out@[to] == image.bytes()[from + 2]
            &&& out@[to + 1] == image.bytes()[from + 1]
            &&& out@[to + 2] == image.bytes()[from]
            &&& out@[to + 3] == image.bytes()[from + 3]
        }),
{
    lemma_pixel_at(out@, image.bytes(), image.extent(), row, x);
}

/// The bytes of one pixel, counted in pixels.
proof fn lemma_pixel_at(out: Seq<u8>, pixels: Seq<u8>, size: Size, row: int, x: int)
    requires
        is_bottom_up_bgra(out, pixels, size),
        0 <= row < size.height,
        0 <= x < size.width,
    ensures
        ({
            let to = 4 * (row * size.width + x);
            let from = 4 * ((size.height - 1 - row) * size.width + x);
            &&& out.len() == 4 * (size.width * size.height)
            &&& 0 <= to
            &&& to + 4 <= out.len()
            &&& out[to] == pixels[from + 2]
            &&& out[to + 1] == pixels[from + 1]
            &&& out[to + 2] == pixels[from]
            &&& out[to + 3] == pixels[from + 3]
        }),
{
    let stride = bitmap::stride(size);
    let other = size.height - 1 - row;
    assert(size.height * (4 * size.width) == 4 * (size.width * size.height)) by (nonlinear_arith);
    assert(row * (4 * size.width) == 4 * (row * size.width)) by (nonlinear_arith);
    assert(other * (4 * size.width) == 4 * (other * size.width)) by (nonlinear_arith);
    bitmap::lemma_row_index(size.height as int, stride, row, 4 * x + 3);
    bitmap::lemma_row_index(size.height as int, stride, row, 4 * x);
    assert(out[row * stride + 4 * x] == pixels[other * stride + swapped(4 * x)]);
    assert(out[row * stride + (4 * x + 1)] == pixels[other * stride + swapped(4 * x + 1)]);
    assert(out[row * stride + (4 * x + 2)] == pixels[other * stride + swapped(4 * x + 2)]);
    assert(out[row * stride + (4 * x + 3)] == pixels[other * stride + swapped(4 * x + 3)]);
}

/// What four bytes say, the lowest first.
pub open spec fn number_at(bytes: Seq<u8>, at: int) -> int {
    bytes[at] + 0x100 * bytes[at + 1] + 0x1_0000 * bytes[at + 2] + 0x100_0000 * bytes[at + 3]
}

/// What four bytes say of a number is that number.
proof fn lemma_number_reads_back(n: int)
    requires
        0 <= n <= u32::MAX,
    ensures
        number_at(le32(n), 0) == n,
{
}

/// What one field of the header says, where the bytes before and behind it are
/// known by their number.
proof fn lemma_field(bytes: Seq<u8>, at: int, n: int)
    requires
        0 <= n <= u32::MAX,
        0 <= at,
        at + 4 <= bytes.len(),
        bytes.subrange(at, at + 4) == le32(n),
    ensures
        number_at(bytes, at) == n,
{
    lemma_number_reads_back(n);
    let field = bytes.subrange(at, at + 4);
    assert(field[0] == bytes[at] && field[1] == bytes[at + 1] && field[2] == bytes[at + 2]
        && field[3] == bytes[at + 3]);
}

/// What another application reads off a picture that was copied: a bottom-up bitmap
/// of its width and its height, one plane of 32 bits, whose masks say where the
/// channels of each pixel lie.
pub proof fn law_a_copied_picture_describes_itself(image: &RgbaBitmap, dib: Vec<u8>)
    requires
        call_ensures(dibv5_bytes, (image,), Ok(dib)),
    ensures
        dib@.len() == 124 + 4 * (image.extent().width * image.extent().height),
        number_at(dib@, 0) == 124,
        number_at(dib@, 4) == image.extent().width,
        number_at(dib@, 8) == image.extent().height,
        dib@[12] == 1 && dib@[13] == 0,
        dib@[14] == 32 && dib@[15] == 0,
        number_at(dib@, 16) == 3,
        number_at(dib@, 20) == dib@.len() - 124,
        number_at(dib@, 40) == 0xff * 0x1_0000,
        number_at(dib@, 44) == 0xff * 0x100,
        number_at(dib@, 48) == 0xff,
        number_at(dib@, 52) == 0xff * 0x100_0000,
        number_at(dib@, 56) == 0x7352_4742,
        number_at(dib@, 108) == 4,
        forall|i: int| 24 <= i < 40 || 60 <= i < 108 || 112 <= i < 124 ==> #[trigger] dib@[i] == 0,
{
    let size = image.extent();
    let count = bitmap::byte_count(size);
    let head = header(size, count);
    assert(size.height * (4 * size.width) == 4 * (size.width * size.height)) by (nonlinear_arith);
    assert(0 <= 4 * (size.width * size.height)) by (nonlinear_arith);
    assert(head.len() == 124);
    assert(dib@.take(124) == head);
    assert forall|i: int| 0 <= i < 124 implies #[trigger] dib@[i] == head[i] by {
        assert(dib@.take(124)[i] == dib@[i]);
    }
    assert(head.subrange(0, 4) =~= le32(124));
    assert(head.subrange(4, 8) =~= le32(size.width as int));
    assert(head.subrange(8, 12) =~= le32(size.height as int));
    assert(head.subrange(12, 16) =~= le32(0x20_0001));
    assert(head.subrange(16, 20) =~= le32(3));
    assert(head.subrange(20, 24) =~= le32(count));
    assert(head.subrange(40, 44) =~= le32(0x00FF_0000));
    assert(head.subrange(44, 48) =~= le32(0x0000_FF00));
    assert(head.subrange(48, 52) =~= le32(0x0000_00FF));
    assert(head.subrange(52, 56) =~= le32(0xFF00_0000));
    assert(head.subrange(56, 60) =~= le32(0x7352_4742));
    assert(head.subrange(108, 112) =~= le32(4));
    lemma_field(head, 0, 124);
    lemma_field(head, 4, size.width as int);
    lemma_field(head, 8, size.height as int);
    lemma_field(head, 16, 3);
    lemma_field(head, 20, count);
    lemma_field(head, 40, 0x00FF_0000);
    lemma_field(head, 44, 0x0000_FF00);
    lemma_field(head, 48, 0x0000_00FF);
    lemma_field(head, 52, 0xFF00_0000);
    lemma_field(head, 56, 0x7352_4742);
    lemma_field(head, 108, 4);
    let planes = head.subrange(12, 16);
    assert(planes[0] == 1 && planes[1] == 0 && planes[2] == 32 && planes[3] == 0);
    assert(head[12] == planes[0] && head[13] == planes[1] && head[14] == planes[2] && head[15]
        == planes[3]);
}

/// A copied picture is the picture: behind the header, row by row from the bottom
/// up, each pixel in its own column, its red where the mask for red says, and so on.
pub proof fn law_a_copied_picture_is_the_picture(
    image: &RgbaBitmap,
    dib: Vec<u8>,
    row: int,
    x: int,
)
    requires
        call_ensures(dibv5_bytes, (image,), Ok(dib)),
        0 <= row < image.extent().height,
        0 <= x < image.extent().width,
    ensures
        ({
            let width = image.extent().width;
            let height = image.extent().height;
            let to = 124 + 4 * ((height - 1 - row) * width + x);
            let from = 4 * (row * width + x);
            &&& dib@[to + 2] == image.bytes()[from]
            &&& dib@[to + 1] == image.bytes()[from + 1]
            &&& dib@[to] == image.bytes()[from + 2]
            &&& dib@[to + 3] == image.bytes()[from + 3]
        }),
{
    let size = image.extent();
    let tail = dib@.skip(124);
    let other = size.height - 1 - row;
    lemma_pixel_at(tail, image.bytes(), size, other, x);
    let to = 4 * (other * size.width + x);
    assert(tail[to] == dib@[124 + to] && tail[to + 1] == dib@[124 + to + 1] && tail[to + 2]
        == dib@[124 + to + 2] && tail[to + 3] == dib@[124 + to + 3]);
}

/// A picture is refused exactly where the header has no room for its width, its
/// height or its bytes, and the reason names which.
pub proof fn law_only_what_the_header_cannot_say_is_refused(
    image: &RgbaBitmap,
    dib: Result<Vec<u8>, &'static str>,
)
    requires
        call_ensures(dibv5_bytes, (image,), dib),
    ensures
        ({
            let width = image.extent().width;
            let height = image.extent().height;
            &&& dib is Ok <==> width <= 0x7fff_ffff && height <= 0x7fff_ffff && 4 * (width * height)
                <= 0xffff_ffff
            &&& dib matches Err(reason) ==> if width > 0x7fff_ffff {
                reason@ == "capture width overflows a DIB"@
            } else if height > 0x7fff_ffff {
                reason@ == "capture height overflows a DIB"@
            } else {
                reason@ == "capture overflows a DIB's image size"@
            }
        }),
{
    let size = image.extent();
    assert(size.height * (4 * size.width) == 4 * (size.width * size.height)) by (nonlinear_arith);
}

/// Where every step works, the clipboard is opened, emptied, given the bitmap, given
/// the PNG and closed, in this order, and that is a success.
pub proof fn law_a_publication_that_works(
    empty: Publish,
    dib: Publish,
    png: Publish,
    close: Publish,
    end: Publish,
)
    requires
        call_ensures(publish_clipboard, (Publish::Open, Ok(())), empty),
        call_ensures(publish_clipboard, (empty, Ok(())), dib),
        call_ensures(publish_clipboard, (dib, Ok(())), png),
        call_ensures(publish_clipboard, (png, Ok(())), close),
        call_ensures(publish_clipboard, (close, Ok(())), end),
    ensures
        empty == Publish::Empty,
        dib == Publish::SetDib,
        png == Publish::SetPng,
        close == Publish::Close(Ok(())),
        end == Publish::Finished(Ok(())),
{
}

/// A step that fails is the last before the clipboard is closed, and why it failed is
/// what comes of it, whether or not closing works.
pub proof fn law_a_publication_that_fails(
    step: Publish,
    reason: String,
    next: Publish,
    closing: Result<(), String>,
    end: Publish,
)
    requires
        step == Publish::Open || step == Publish::Empty || step == Publish::SetDib || step
            == Publish::SetPng,
        call_ensures(publish_clipboard, (step, Err(reason)), next),
        call_ensures(publish_clipboard, (next, closing), end),
    ensures
        end is Finished,
        end->Finished_0 is Err,
        step == Publish::Open ==> next is Finished && end->Finished_0->Err_0@
            == "could not open the clipboard"@,
        step == Publish::Empty ==> next is Close && end->Finished_0->Err_0@
            == "could not empty the clipboard"@,
        step == Publish::SetDib || step == Publish::SetPng ==> next is Close
            && end->Finished_0->Err_0 == reason,
{
}

/// Where every step works, memory is allocated, locked, filled and handed over, and is
/// the clipboard's from then on.
pub proof fn law_a_handover_that_works(
    format: u32,
    lock: Handover,
    hand_over: Handover,
    end: Handover,
)
    requires
        call_ensures(set_clipboard_data, (format, Handover::Allocate, true), lock),
        call_ensures(set_clipboard_data, (format, lock, true), hand_over),
        call_ensures(set_clipboard_data, (format, hand_over, true), end),
    ensures
        lock == Handover::Lock,
        hand_over == Handover::HandOver,
        end == Handover::Finished(Ok(())),
{
}

/// A handover that fails says at which step and for which format; memory that could
/// be allocated is freed first.
pub proof fn law_a_handover_that_fails(
    format: u32,
    step: Handover,
    next: Handover,
    freed: bool,
    end: Handover,
)
    requires
        step == Handover::Allocate || step == Handover::Lock || step == Handover::HandOver,
        call_ensures(set_clipboard_data, (format, step, false), next),
        call_ensures(set_clipboard_data, (format, next, freed), end),
    ensures
        end is Finished,
        end->Finished_0 is Err,
        step == Handover::Allocate ==> next == end && end->Finished_0->Err_0@
            == "could not allocate clipboard memory for format "@ + text::decimal(format as nat),
        step == Handover::Lock ==> next is Free && end->Finished_0->Err_0@
            == "could not lock clipboard memory for format "@ + text::decimal(format as nat),
        step == Handover::HandOver ==> next is Free && end->Finished_0->Err_0@
            == "could not publish clipboard format "@ + text::decimal(format as nat),
{
}

/// Publishing begins with opening the clipboard.
pub proof fn law_publishing_begins_with_opening(step: Publish)
    requires
        call_ensures(Publish::default, (), step),
    ensures
        step == Publish::Open,
{
}

} // verus!
