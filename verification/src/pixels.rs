//! Pixel-buffer transformations performed between GPU readback and encoding:
//! stripping row padding, cropping rows to a requested width, and reordering
//! BGRA bytes into RGBA.

use vstd::prelude::*;
use vstd::arithmetic::div_mod::{lemma_fundamental_div_mod, lemma_fundamental_div_mod_converse};
use vstd::arithmetic::mul::lemma_mul_inequality;

verus! {

/// A two-dimensional size in pixels.
#[derive(Clone, Copy, PartialEq, Eq, Structural, Debug)]
pub struct UVec2 {
    pub x: u32,
    pub y: u32,
}

/// The first `dst_row` bytes of each of `rows` rows of stride `src_row`,
/// laid out contiguously.
pub open spec fn row_prefixes(bytes: Seq<u8>, src_row: nat, dst_row: nat, rows: nat) -> Seq<u8>
    recommends
        0 < dst_row <= src_row,
        rows * src_row <= bytes.len(),
{
    Seq::new(
        rows * dst_row,
        |k: int| bytes[(k / (dst_row as int)) * src_row + (k % (dst_row as int))],
    )
}

/// Copies the first `bytes_per_row` bytes of each row out of a buffer whose
/// rows are `padded_bytes_per_row` bytes apart, dropping the padding.
pub fn depad_rows(
    bytes: &Vec<u8>,
    padded_bytes_per_row: usize,
    bytes_per_row: usize,
    rows: usize,
) -> (r: Vec<u8>)
    requires
        0 < bytes_per_row <= padded_bytes_per_row,
        rows * padded_bytes_per_row <= bytes@.len(),
    ensures
        r@ == row_prefixes(bytes@, padded_bytes_per_row as nat, bytes_per_row as nat, rows as nat),
        r@.len() == rows * bytes_per_row,
{
    let total: usize = bytes.len();
    let mut r: Vec<u8> = Vec::new();
    let mut i: usize = 0;
    while i < rows
        invariant
            i <= rows,
            0 < bytes_per_row <= padded_bytes_per_row,
            total == bytes@.len(),
            rows * padded_bytes_per_row <= bytes@.len(),
            r@.len() == i * bytes_per_row,
            forall|k: int|
                0 <= k < r@.len() ==> r@[k] == bytes@[(k / (bytes_per_row as int)) * (
                padded_bytes_per_row as int) + (k % (bytes_per_row as int))],
        decreases rows - i,
    {
        proof {
            lemma_mul_inequality(i + 1, rows as int, padded_bytes_per_row as int);
            assert((i + 1) * padded_bytes_per_row == i * padded_bytes_per_row
                + padded_bytes_per_row) by (nonlinear_arith);
            assert((i + 1) * bytes_per_row == i * bytes_per_row + bytes_per_row)
                by (nonlinear_arith);
        }
        let row_start: usize = i * padded_bytes_per_row;
        let mut j: usize = 0;
        while j < bytes_per_row
            invariant
                j <= bytes_per_row,
                0 < bytes_per_row <= padded_bytes_per_row,
                total == bytes@.len(),
                row_start == i * padded_bytes_per_row,
                row_start + padded_bytes_per_row <= bytes@.len(),
                r@.len() == i * bytes_per_row + j,
                forall|k: int|
                    0 <= k < r@.len() ==> r@[k] == bytes@[(k / (bytes_per_row as int)) * (
                    padded_bytes_per_row as int) + (k % (bytes_per_row as int))],
            decreases bytes_per_row - j,
        {
            proof {
                lemma_fundamental_div_mod_converse(
                    i * bytes_per_row + j,
                    bytes_per_row as int,
                    i as int,
                    j as int,
                );
            }
            r.push(bytes[row_start + j]);
            j = j + 1;
        }
        i = i + 1;
    }
    proof {
        assert(r@ =~= row_prefixes(
            bytes@,
            padded_bytes_per_row as nat,
            bytes_per_row as nat,
            rows as nat,
        ));
    }
    r
}

/// Discards the rightmost columns of every row, keeping the first
/// `target_width` RGBA texels of each of the `resolution.y` rows that are
/// `resolution.x` texels wide.
pub fn crop_image_width(data: &mut Vec<u8>, resolution: UVec2, target_width: u32)
    requires
        0 < target_width <= resolution.x,
        old(data)@.len() == 4 * resolution.x * resolution.y,
        4 * resolution.x <= usize::MAX,
    ensures
        final(data)@ == row_prefixes(
            old(data)@,
            4 * resolution.x as nat,
            4 * target_width as nat,
            resolution.y as nat,
        ),
        final(data)@.len() == 4 * target_width * resolution.y,
{
    let src_row: usize = 4 * (resolution.x as usize);
    let dst_row: usize = 4 * (target_width as usize);
    let rows: usize = resolution.y as usize;
    proof {
        assert(rows * src_row == 4 * resolution.x * resolution.y) by (nonlinear_arith)
            requires
                rows == resolution.y,
                src_row == 4 * resolution.x,
        ;
    }
    let cropped = depad_rows(data, src_row, dst_row, rows);
    *data = cropped;
    proof {
        assert(rows * dst_row == 4 * target_width * resolution.y) by (nonlinear_arith)
            requires
                rows == resolution.y,
                dst_row == 4 * target_width,
        ;
    }
}

/// The byte sequence with the blue and red channels of every complete
/// four-byte texel exchanged; a trailing fragment shorter than one texel is
/// left as it is.
pub open spec fn bgra_swapped(s: Seq<u8>) -> Seq<u8> {
    Seq::new(
        s.len(),
        |i: int|
            if i < 4 * ((s.len() as int) / 4) {
                if i % 4 == 0 {
                    s[i + 2]
                } else if i % 4 == 2 {
                    s[i - 2]
                } else {
                    s[i]
                }
            } else {
                s[i]
            },
    )
}

/// Reorders BGRA pixel data into RGBA by swapping the first and third byte of
/// every complete texel.
pub fn bgra_to_rgba(data: &mut Vec<u8>)
    ensures
        final(data)@ == bgra_swapped(old(data)@),
{
    let len = data.len();
    let mut i: usize = 0;
    while len - i >= 4
        invariant
            len == data@.len(),
            len == old(data)@.len(),
            i % 4 == 0,
            i <= len,
            forall|k: int|
                0 <= k < i ==> data@[k] == (if k % 4 == 0 {
                    old(data)@[k + 2]
                } else if k % 4 == 2 {
                    old(data)@[k - 2]
                } else {
                    old(data)@[k]
                }),
            forall|k: int| i <= k < len ==> data@[k] == old(data)@[k],
        decreases len - i,
    {
        let b = data[i];
        let r = data[i + 2];
        data.set(i, r);
        data.set(i + 2, b);
        i = i + 4;
    }
    proof {
        lemma_fundamental_div_mod(i as int, 4);
        lemma_fundamental_div_mod_converse(len as int, 4, (i as int) / 4, len - i);
        assert(i == 4 * ((len as int) / 4));
        assert(data@ =~= bgra_swapped(old(data)@));
    }
}

} // verus!
