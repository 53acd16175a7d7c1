use vstd::prelude::*;

use crate::color::Rgb;

verus! {

/// Bytes in one pixel of the render target.
pub const BYTES_PER_PIXEL: u64 = 4;

/// The row alignment a texture-to-buffer copy needs, in bytes.
pub const ROW_ALIGNMENT: u64 = 256;

/// Bytes of one row of a `width` pixel wide image, without padding.
pub open spec fn unpadded_row_bytes(width: int) -> int {
    width * BYTES_PER_PIXEL
}

/// Bytes of one row of a `width` pixel wide image in a copy destination:
/// the row padded up to the next multiple of `ROW_ALIGNMENT`.
pub open spec fn padded_row_bytes(width: int) -> int {
    unpadded_row_bytes(width)
        + (ROW_ALIGNMENT - unpadded_row_bytes(width) % (ROW_ALIGNMENT as int)) % (ROW_ALIGNMENT as int)
}

/// Bytes of the copy destination for a `width` by `height` image.
pub open spec fn readback_bytes(width: int, height: int) -> int {
    padded_row_bytes(width) * height
}

/// Where pixel `(x, y)` starts in a copy destination for a `width` pixel wide image.
pub open spec fn pixel_offset(width: int, x: int, y: int) -> int {
    padded_row_bytes(width) * y + BYTES_PER_PIXEL * x
}

/// Whether pixel `(x, y)` of a `width` by `height` image lies whole inside
/// `len` mapped bytes.
pub open spec fn pixel_in_bounds(len: int, width: int, height: int, x: int, y: int) -> bool {
    &&& 0 <= x < width
    &&& 0 <= y < height
    &&& pixel_offset(width, x, y) + BYTES_PER_PIXEL <= len
}

/// The color stored at `off` in blue, green, red, alpha byte order.
pub open spec fn bgra_at(bytes: Seq<u8>, off: int) -> Rgb {
    Rgb { r: bytes[off + 2], g: bytes[off + 1], b: bytes[off] }
}

/// Relies on wgpu::COPY_BYTES_PER_ROW_ALIGNMENT, the row alignment the GPU
/// backend asks of texture-to-buffer copies (256 in wgpu-types).
#[verifier::external_body]
fn copy_row_alignment() -> (r: u32)
    ensures
        r as u64 == ROW_ALIGNMENT,
{
    wgpu::COPY_BYTES_PER_ROW_ALIGNMENT
}

/// Row bytes of a `width` pixel wide image without padding.
pub fn unpadded_bytes_per_row(width: u32) -> (r: u64)
    ensures
        r == unpadded_row_bytes(width as int),
{
    width as u64 * BYTES_PER_PIXEL
}

/// Row bytes of a `width` pixel wide image in a copy destination, padded to
/// the backend's row alignment.
pub fn padded_bytes_per_row(width: u32) -> (r: u64)
    ensures
        r == padded_row_bytes(width as int),
{
    let unpadded = unpadded_bytes_per_row(width);
    let align = copy_row_alignment() as u64;
    let padding = (align - unpadded % align) % align;
    unpadded + padding
}

/// A padded row is at least as long as the unpadded one, shorter than it plus
/// `ROW_ALIGNMENT`, and a multiple of `ROW_ALIGNMENT`.
pub proof fn lemma_padded_row_bytes(width: int)
    requires
        0 <= width,
    ensures
        padded_row_bytes(width) >= unpadded_row_bytes(width),
        padded_row_bytes(width) < unpadded_row_bytes(width) + ROW_ALIGNMENT,
        padded_row_bytes(width) % (ROW_ALIGNMENT as int) == 0,
{
    let u = unpadded_row_bytes(width);
    let m = u % (ROW_ALIGNMENT as int);
    vstd::arithmetic::div_mod::lemma_fundamental_div_mod(u, ROW_ALIGNMENT as int);
    if m == 0 {
        assert(padded_row_bytes(width) == u);
    } else {
        assert(padded_row_bytes(width) == u + (ROW_ALIGNMENT - m));
        assert(padded_row_bytes(width) == ROW_ALIGNMENT * (u / (ROW_ALIGNMENT as int) + 1));
        vstd::arithmetic::div_mod::lemma_mod_multiples_basic(u / (ROW_ALIGNMENT as int) + 1, ROW_ALIGNMENT as int);
    }
}

/// Bytes of the copy destination for a `width` by `height` image; `None`
/// where that count does not fit a `u64`.
pub fn readback_size(width: u32, height: u32) -> (r: Option<u64>)
    ensures
        r.is_some() <==> readback_bytes(width as int, height as int) <= u64::MAX,
        r.is_some() ==> r.unwrap() == readback_bytes(width as int, height as int),
{
    let row = padded_bytes_per_row(width);
    row.checked_mul(height as u64)
}

/// The color of pixel `(x, y)` in `mapped`, a copy destination for a
/// `width` by `height` image in blue, green, red, alpha byte order; `None`
/// where the pixel does not lie whole inside the image and the mapped bytes.
pub fn pick_pixel(mapped: &[u8], width: u32, height: u32, x: u64, y: u64) -> (r: Option<Rgb>)
    ensures
        r.is_some() <==> pixel_in_bounds(mapped@.len() as int, width as int, height as int, x as int, y as int),
        r.is_some() ==> r == Some(bgra_at(mapped@, pixel_offset(width as int, x as int, y as int))),
{
    if x >= width as u64 || y >= height as u64 {
        return None;
    }
    let row = padded_bytes_per_row(width);
    proof {
        lemma_padded_row_bytes(width as int);
        assert(row * y + 4 * x <= 0x8_0000_0000 * 0x1_0000_0000) by (nonlinear_arith)
            requires row <= 0x4_0000_0000u64, y <= 0xffff_ffffu64, x <= 0xffff_ffffu64;
    }
    let off: u128 = row as u128 * y as u128 + BYTES_PER_PIXEL as u128 * x as u128;
    if off + BYTES_PER_PIXEL as u128 > mapped.len() as u128 {
        return None;
    }
    let o = off as usize;
    Some(Rgb { r: mapped[o + 2], g: mapped[o + 1], b: mapped[o] })
}

} // verus!
