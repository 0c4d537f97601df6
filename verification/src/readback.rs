//! Pixel data read back from an offscreen render target: row padding as the GPU lays it out,
//! and conversion of BGRA bytes to the packed pixels a software framebuffer expects.
use vstd::prelude::*;

use crate::embedded::color_of;

verus! {

/// Bytes per row of a `width`-pixel BGRA8 row, rounded up to a multiple of `align`:
/// the smallest multiple of `align` that holds `width * 4` bytes.
pub fn padded_bytes_per_row(width: u32, align: u32) -> (r: u32)
    requires
        align > 0,
        width * 4 + align - 1 <= u32::MAX,
    ensures
        r % align == 0,
        width * 4 <= r < width * 4 + align,
{
    let bytes_per_pixel = 4u32;
    let unpadded = width * bytes_per_pixel;
    let q = (unpadded + (align - 1)) / align;
    assert(q * align <= unpadded + align - 1 && unpadded + align - 1 < q * align + align
        && (q * align) % (align as int) == 0) by (nonlinear_arith)
        requires
            q == (unpadded + align - 1) / (align as int),
            align > 0,
            unpadded + align - 1 >= 0,
    ;
    assert(q * align <= u32::MAX) by (nonlinear_arith)
        requires
            q * align <= unpadded + align - 1,
            unpadded + align - 1 <= u32::MAX,
    ;
    q * align
}

/// The first `height` rows of `data`, each `row_bytes` long, where consecutive rows start
/// `stride` bytes apart.
pub open spec fn strip_row_padding(data: Seq<u8>, row_bytes: nat, stride: nat, height: nat) -> Seq<u8> {
    Seq::new(
        height * row_bytes,
        |i: int| data[(i / row_bytes as int) * stride + i % row_bytes as int],
    )
}

/// Remove the per-row padding from pixel data read back from the GPU.
///
/// When the padded and unpadded row sizes agree the data is returned as it is; otherwise the
/// first `unpadded_bytes_per_row` bytes of each of the `height` rows are kept.
pub fn unpad_rows(data: &[u8], height: u32, unpadded_bytes_per_row: u32, padded_bytes_per_row: u32) -> (r:
    Vec<u8>)
    requires
        padded_bytes_per_row != unpadded_bytes_per_row ==> {
            &&& height * unpadded_bytes_per_row <= u32::MAX
            &&& height == 0 || {
                &&& (height - 1) * padded_bytes_per_row <= u32::MAX
                &&& (height - 1) * padded_bytes_per_row + unpadded_bytes_per_row <= data@.len()
            }
        },
    ensures
        padded_bytes_per_row == unpadded_bytes_per_row ==> r@ == data@,
        padded_bytes_per_row != unpadded_bytes_per_row ==> r@ == strip_row_padding(
            data@,
            unpadded_bytes_per_row as nat,
            padded_bytes_per_row as nat,
            height as nat,
        ),
{
    if padded_bytes_per_row == unpadded_bytes_per_row {
        return vstd::slice::slice_to_vec(data);
    }
    let ghost ub = unpadded_bytes_per_row as int;
    let ghost pb = padded_bytes_per_row as int;
    let mut out: Vec<u8> = Vec::with_capacity((height * unpadded_bytes_per_row) as usize);
    let mut y: u32 = 0;
    while y < height
        invariant
            y <= height,
            height * ub <= u32::MAX,
            height == 0 || ((height - 1) * pb <= u32::MAX && (height - 1) * pb + ub
                <= data@.len()),
            ub == unpadded_bytes_per_row,
            pb == padded_bytes_per_row,
            out@.len() == y * ub,
            forall|i: int|
                0 <= i < y * ub ==> #[trigger] out@[i] == data@[(i / ub) * pb + i % ub],
        decreases height - y,
    {
        assert(y * pb <= (height - 1) * pb) by (nonlinear_arith)
            requires
                y < height,
                pb >= 0,
        ;
        let start = (y * padded_bytes_per_row) as usize;
        let mut k: u32 = 0;
        while k < unpadded_bytes_per_row
            invariant
                y < height,
                k <= ub,
                height * ub <= u32::MAX,
                (height - 1) * pb <= u32::MAX && (height - 1) * pb + ub <= data@.len(),
                y * pb <= (height - 1) * pb,
                start == y * pb,
                ub == unpadded_bytes_per_row,
                pb == padded_bytes_per_row,
                out@.len() == y * ub + k,
                forall|i: int|
                    0 <= i < y * ub ==> #[trigger] out@[i] == data@[(i / ub) * pb + i % ub],
                forall|j: int| 0 <= j < k ==> #[trigger] out@[y * ub + j] == data@[start + j],
            decreases ub - k,
        {
            assert(start + k < data@.len());
            assert(data@.len() == data.len());
            out.push(data[start + k as usize]);
            k = k + 1;
        }
        proof {
            assert forall|i: int| 0 <= i < (y + 1) * ub implies #[trigger] out@[i] == data@[(i / ub) * pb
                + i % ub] by {
                if i >= y * ub {
                    let j = i - y * ub;
                    assert(0 <= j < ub) by (nonlinear_arith)
                        requires
                            i >= y * ub,
                            i < (y + 1) * ub,
                            j == i - y * ub,
                    ;
                    assert(i / ub == y && i % ub == j) by (nonlinear_arith)
                        requires
                            i == y * ub + j,
                            0 <= j < ub,
                    ;
                    assert(out@[y * ub + j] == data@[start + j]);
                }
            }
            assert((y + 1) * ub == y * ub + ub) by (nonlinear_arith);
        }
        y = y + 1;
    }
    assert(out@ =~= strip_row_padding(data@, ub as nat, pb as nat, height as nat));
    out
}

/// The packed pixel (`0xAARRGGBB`) of the BGRA quadruple starting at byte `4 * i`.
pub open spec fn packed_pixel(bgra: Seq<u8>, i: int) -> u32 {
    color_of(bgra[4 * i + 2], bgra[4 * i + 1], bgra[4 * i], bgra[4 * i + 3])
}

/// Convert BGRA8 pixel data to the format expected by a software framebuffer
/// (`0xAARRGGBB`). Trailing bytes that do not make up a whole pixel are ignored;
/// `width * height` only sizes the allocation.
pub fn bgra_to_softbuffer(bgra: &[u8], width: u32, height: u32) -> (r: Vec<u32>)
    requires
        width * height <= u32::MAX,
    ensures
        r@.len() == bgra@.len() / 4,
        forall|i: int| 0 <= i < r@.len() ==> #[trigger] r@[i] == packed_pixel(bgra@, i),
{
    let mut result: Vec<u32> = Vec::with_capacity((width * height) as usize);
    let n = bgra.len() / 4;
    let mut i: usize = 0;
    while i < n
        invariant
            n == bgra@.len() / 4,
            i <= n,
            result@.len() == i,
            forall|j: int| 0 <= j < i ==> #[trigger] result@[j] == packed_pixel(bgra@, j),
        decreases n - i,
    {
        assert(4 * i + 3 < bgra@.len()) by (nonlinear_arith)
            requires
                i < n,
                n == bgra@.len() / 4,
        ;
        assert(bgra@.len() == bgra.len());
        let b = bgra[4 * i] as u32;
        let g = bgra[4 * i + 1] as u32;
        let r = bgra[4 * i + 2] as u32;
        let a = bgra[4 * i + 3] as u32;
        let px = (a << 24) | (r << 16) | (g << 8) | b;
        assert(px == a * 0x1000000 + r * 0x10000 + g * 0x100 + b) by (bit_vector)
            requires
                px == (a << 24) | (r << 16) | (g << 8) | b,
                a < 256,
                r < 256,
                g < 256,
                b < 256,
        ;
        result.push(px);
        i = i + 1;
    }
    result
}

} // verus!
