use vstd::prelude::*;
use vstd::string::*;

use crate::decimal::{append_decimal, decimal_digits};

verus! {

/// Why a page did not render: it would need more memory than the limit
/// allows (the bytes that could not be reserved), or anything else.
pub enum PageError {
    Memory(usize),
    Other(String),
}

impl From<String> for PageError {
    fn from(s: String) -> (e: PageError) {
        PageError::Other(s)
    }
}

impl vstd::std_specs::convert::FromSpecImpl<String> for PageError {
    open spec fn obeys_from_spec() -> bool {
        true
    }

    open spec fn from_spec(s: String) -> PageError {
        PageError::Other(s)
    }
}

/// `Vec::try_reserve_exact`: asks the allocator for room for exactly
/// `additional` more bytes. Whether that succeeds depends on the allocator
/// and the process's memory limit; either way the contents stay as they were.
/// A `Vec` never holds more than `isize::MAX` bytes, so a request past that
/// is refused as a capacity overflow; a request for no more room does
/// nothing, since the capacity already suffices, and succeeds. The capacity
/// it leaves has no specification here and is not stated.
#[verifier::external_body]
fn try_reserve_exact(v: &mut Vec<u8>, additional: usize) -> (ok: bool)
    ensures
        final(v)@ == old(v)@,
        old(v)@.len() + additional > isize::MAX ==> !ok,
        additional == 0 ==> ok,
{
    v.try_reserve_exact(additional).is_ok()
}

/// Reserves `bytes` bytes without touching them, so that an address-space
/// limit refuses the page before the renderer allocates. Gives the empty
/// buffer with its room, or `PageError::Memory(bytes)` when it is refused;
/// a request of more than `isize::MAX` bytes is always refused, and a
/// request of none always succeeds.
pub fn probe(bytes: usize) -> (r: Result<Vec<u8>, PageError>)
    ensures
        match r {
            Ok(v) => v@.len() == 0,
            Err(e) => e == PageError::Memory(bytes),
        },
        bytes > isize::MAX ==> r == Err::<Vec<u8>, PageError>(PageError::Memory(bytes)),
        bytes == 0 ==> r is Ok,
{
    let mut v: Vec<u8> = Vec::new();
    let reserved = try_reserve_exact(&mut v, bytes);
    reservation_outcome(bytes, reserved, v)
}

/// What a page gets from a reservation of `bytes` bytes into `buffer`: the
/// buffer when the allocator granted it, else `PageError::Memory(bytes)`,
/// so that the page is skipped for the memory limit.
pub fn reservation_outcome(bytes: usize, reserved: bool, buffer: Vec<u8>) -> (r: Result<Vec<u8>, PageError>)
    ensures
        reserved ==> (r matches Ok(v) && v == buffer),
        !reserved ==> r == Err::<Vec<u8>, PageError>(PageError::Memory(bytes)),
{
    if reserved {
        Ok(buffer)
    } else {
        Err(PageError::Memory(bytes))
    }
}

/// The pixel size of a page from its size rounded up and rounded down (as
/// `f32 as i32` gives them): rounded up like pdftoppm, unless that crosses
/// `-max-pixels` (product taken as `u64`, wrapping), then rounded down. A
/// size below one pixel in either direction is an error carrying it.
pub open spec fn spec_settle_pixel_size(
    rounded_up: (i32, i32),
    rounded_down: (i32, i32),
    max_pixels: Option<u64>,
) -> Result<(i32, i32), (i32, i32)> {
    let over = match max_pixels {
        Some(m) => vstd::wrapping::u64_specs::wrapping_mul(
            rounded_up.0 as u64,
            rounded_up.1 as u64,
        ) > m,
        None => false,
    };
    let (w, h) = if over { rounded_down } else { rounded_up };
    if w < 1 || h < 1 {
        Err((w, h))
    } else {
        Ok((w, h))
    }
}

/// Settles the pixel size of a page.
pub fn settle_pixel_size(
    rounded_up: (i32, i32),
    rounded_down: (i32, i32),
    max_pixels: Option<u64>,
) -> (r: Result<(i32, i32), (i32, i32)>)
    ensures
        r == spec_settle_pixel_size(rounded_up, rounded_down, max_pixels),
        r matches Ok((w, h)) ==> w >= 1 && h >= 1,
{
    let over = match max_pixels {
        Some(m) => (rounded_up.0 as u64).wrapping_mul(rounded_up.1 as u64) > m,
        None => false,
    };
    let (w, h) = if over { rounded_down } else { rounded_up };
    if w < 1 || h < 1 {
        Err((w, h))
    } else {
        Ok((w, h))
    }
}

/// The gray level of a pixel, with the ITU-R 601 weights pdftoppm uses.
pub open spec fn gray_level(b: u8, g: u8, r: u8) -> u8 {
    ((r as nat * 299 + g as nat * 587 + b as nat * 114) / 1000) as u8
}

/// Output bytes per pixel: one for gray, three for RGB.
pub open spec fn bytes_per_pixel(gray: bool) -> int {
    if gray { 1 } else { 3 }
}

/// Pixel `j` of the BGRA input stands converted in `out` from `base` on:
/// its gray level, or its red, green and blue bytes in that order.
pub open spec fn pixel_converted(out: Seq<u8>, base: int, bgra: Seq<u8>, gray: bool, j: int) -> bool {
    let b = bgra[4 * j];
    let g = bgra[4 * j + 1];
    let r = bgra[4 * j + 2];
    if gray {
        out[base + j] == gray_level(b, g, r)
    } else {
        &&& out[base + 3 * j] == r
        &&& out[base + 3 * j + 1] == g
        &&& out[base + 3 * j + 2] == b
    }
}

/// Appends to `out` the pixels of a BGRA bitmap (4 bytes each; a partial
/// pixel at the end is ignored, alpha is dropped) as gray levels or RGB.
pub fn convert_bgra(bgra: &[u8], gray: bool, out: &mut Vec<u8>)
    requires
        old(out)@.len() + (bgra@.len() / 4) * bytes_per_pixel(gray) <= usize::MAX,
    ensures
        final(out)@.len() == old(out)@.len() + (bgra@.len() / 4) * bytes_per_pixel(gray),
        final(out)@.subrange(0, old(out)@.len() as int) == old(out)@,
        forall|j: int|
            0 <= j < bgra@.len() / 4 ==> #[trigger] pixel_converted(
                final(out)@,
                old(out)@.len() as int,
                bgra@,
                gray,
                j,
            ),
{
    let ghost base = out@.len() as int;
    let ghost start = out@;
    let len = bgra.len();
    let k = len / 4;
    assert(4 * k <= len);
    let mut i: usize = 0;
    while i < k
        invariant
            len == bgra@.len(),
            k == len / 4,
            4 * k <= len,
            i <= k,
            base == start.len(),
            base + k * bytes_per_pixel(gray) <= usize::MAX,
            out@.len() == base + i * bytes_per_pixel(gray),
            out@.subrange(0, base) == start,
            forall|j: int| 0 <= j < i ==> #[trigger] pixel_converted(out@, base, bgra@, gray, j),
        decreases k - i,
    {
        assert(4 * i + 4 <= 4 * k);
        let p = 4 * i;
        let b = bgra[p];
        let g = bgra[p + 1];
        let r = bgra[p + 2];
        let ghost before = out@;
        if gray {
            let level: u32 = (r as u32 * 299 + g as u32 * 587 + b as u32 * 114) / 1000;
            out.push(level as u8);
        } else {
            out.push(r);
            out.push(g);
            out.push(b);
        }
        assert forall|j: int| 0 <= j < i + 1 implies #[trigger] pixel_converted(out@, base, bgra@, gray, j) by {
            if j < i {
                assert(pixel_converted(before, base, bgra@, gray, j));
            }
        }
        assert(out@.subrange(0, base) =~= before.subrange(0, base));
        i = i + 1;
    }
}

/// The buffers one page needs: its pixel count, the peak of the renderer's
/// BGRA bitmap plus its copy (8 bytes a pixel), and the converted output.
pub struct RenderBuffers {
    pub pixels: usize,
    pub peak_bytes: usize,
    pub output_bytes: usize,
}

/// `x * y` as `usize`, wrapping.
pub open spec fn wrapping_usize(x: nat) -> usize {
    (x % (usize::MAX as nat + 1)) as usize
}

/// Sizes the buffers of a page of `width` by `height` pixels; products
/// wrap as `usize`.
pub fn render_buffers(width: u32, height: u32, gray: bool) -> (r: RenderBuffers)
    ensures
        r.pixels == wrapping_usize(width as nat * height as nat),
        r.peak_bytes == wrapping_usize(r.pixels as nat * 8),
        r.output_bytes == wrapping_usize(r.pixels as nat * bytes_per_pixel(gray) as nat),
{
    let pixels = (width as usize).wrapping_mul(height as usize);
    let bpp: usize = if gray { 1 } else { 3 };
    RenderBuffers {
        pixels,
        peak_bytes: pixels.wrapping_mul(8),
        output_bytes: pixels.wrapping_mul(bpp),
    }
}

/// The reservations around rendering one page: the renderer's peak is
/// reserved (and released) before rendering only under a memory limit; the
/// converted output is always reserved after rendering.
#[derive(Clone, Copy, Debug, PartialEq, Eq, Structural)]
pub struct ReservationPlan {
    pub before_render: Option<usize>,
    pub for_output: usize,
}

/// Plans the reservations of a page from its buffer sizes and whether a
/// memory limit is set.
pub fn reservation_plan(limited: bool, buffers: &RenderBuffers) -> (p: ReservationPlan)
    ensures
        p.before_render == (if limited { Some(buffers.peak_bytes) } else { None::<usize> }),
        p.for_output == buffers.output_bytes,
{
    ReservationPlan {
        before_render: if limited { Some(buffers.peak_bytes) } else { None },
        for_output: buffers.output_bytes,
    }
}

/// How the PNG encoder compresses: stored without compression, or deflate
/// at a level.
#[derive(Clone, Copy, Debug, PartialEq, Eq, Structural)]
pub enum PngCompression {
    Stored,
    Deflate(u8),
}

/// Maps `-png-compress` like the image crate's PNG encoder does: 0 stores,
/// any other level deflates at that level.
pub fn png_compression(level: u8) -> (c: PngCompression)
    ensures
        c == (if level == 0 { PngCompression::Stored } else { PngCompression::Deflate(level) }),
{
    if level == 0 {
        PngCompression::Stored
    } else {
        PngCompression::Deflate(level)
    }
}

/// What the user is told when page `page` is skipped because `need` bytes
/// could not be reserved: the need in whole MiB.
pub open spec fn spec_memory_skip_message(page: u32, need: usize) -> Seq<char> {
    "page "@ + decimal_digits(page as nat) + ": needs about "@ + decimal_digits(
        need as nat / 0x10_0000,
    ) + " MiB, over -max-memory"@
}

/// Tells the user that a page was skipped for the memory limit.
pub fn memory_skip_message(page: u32, need: usize) -> (m: String)
    ensures
        m@ == spec_memory_skip_message(page, need),
{
    let mut m = String::from_str("page ");
    append_decimal(&mut m, page as u64);
    m.append(": needs about ");
    append_decimal(&mut m, (need / 0x10_0000) as u64);
    m.append(" MiB, over -max-memory");
    m
}

} // verus!
