//! Row-layout arithmetic for GPU readback buffers.
//!
//! A texture-to-buffer copy requires each row's byte stride to be a multiple
//! of a device alignment constant.  This module computes the unpadded stride,
//! the padded stride, and the total buffer size, and proves how they relate.

use vstd::prelude::*;
use vstd::arithmetic::div_mod::{
    lemma_fundamental_div_mod, lemma_fundamental_div_mod_converse, lemma_mod_multiples_basic,
};
use vstd::arithmetic::mul::lemma_mul_upper_bound;

verus! {

/// Byte alignment that the device requires of the row stride handed to a
/// texture-to-buffer copy.
pub const COPY_BYTES_PER_ROW_ALIGNMENT: u32 = 256;

/// Least multiple of `align` that is at least `n`.
pub open spec fn align_up(n: nat, align: nat) -> nat
    recommends
        align > 0,
{
    (((n + align - 1) / (align as int)) * (align as int)) as nat
}

/// `align_up` rounds up to the nearest multiple: the result is a multiple of
/// `align`, is at least `n`, overshoots by less than `align`, and equals `n`
/// exactly when `n` is already aligned.
pub proof fn lemma_align_up(n: nat, align: nat)
    requires
        align > 0,
    ensures
        align_up(n, align) % align == 0,
        align_up(n, align) >= n,
        align_up(n, align) < n + align,
        align_up(n, align) == n <==> n % align == 0,
{
    let a = align as int;
    let x = n + align - 1;
    let q = (x as int) / a;
    lemma_fundamental_div_mod(x as int, a);
    let m = (x as int) % a;
    assert(x == a * q + m);
    assert(align_up(n, align) == q * a);
    lemma_mod_multiples_basic(q, a);
    assert((q * a) % a == 0);
    if n % align == 0 {
        lemma_fundamental_div_mod(n as int, a);
        let k = (n as int) / a;
        assert(n == a * k);
        assert(x == a * k + (a - 1));
        lemma_fundamental_div_mod_converse(x as int, a, k, a - 1);
        assert(q == k);
        assert(align_up(n, align) == n);
    }
    if align_up(n, align) == n {
        assert(n % align == 0);
    }
}

/// Bytes that one row of pixels occupies before padding.
pub fn unpadded_bytes_per_row(width: u32, bytes_per_texel: u32) -> (r: u32)
    requires
        width * bytes_per_texel <= u32::MAX,
    ensures
        r == width * bytes_per_texel,
{
    width * bytes_per_texel
}

/// Row stride the device requires: the unpadded stride rounded up to the
/// copy alignment.
pub fn padded_bytes_per_row(bytes_per_row: u32) -> (r: u32)
    requires
        bytes_per_row + COPY_BYTES_PER_ROW_ALIGNMENT - 1 <= u32::MAX,
    ensures
        r == align_up(bytes_per_row as nat, COPY_BYTES_PER_ROW_ALIGNMENT as nat),
        r >= bytes_per_row,
        r % COPY_BYTES_PER_ROW_ALIGNMENT == 0,
{
    proof {
        lemma_align_up(bytes_per_row as nat, COPY_BYTES_PER_ROW_ALIGNMENT as nat);
    }
    let align = COPY_BYTES_PER_ROW_ALIGNMENT;
    ((bytes_per_row + (align - 1)) / align) * align
}

/// The padded stride never falls below the unpadded one, and they coincide
/// exactly when the unpadded stride is already a multiple of the alignment.
pub proof fn lemma_padded_row_bound(width: nat, bytes_per_texel: nat)
    ensures
        align_up(width * bytes_per_texel, COPY_BYTES_PER_ROW_ALIGNMENT as nat) >= width
            * bytes_per_texel,
        align_up(width * bytes_per_texel, COPY_BYTES_PER_ROW_ALIGNMENT as nat) == width
            * bytes_per_texel <==> (width * bytes_per_texel) % (
        COPY_BYTES_PER_ROW_ALIGNMENT as nat) == 0,
{
    lemma_align_up(width * bytes_per_texel, COPY_BYTES_PER_ROW_ALIGNMENT as nat);
}

/// Total size of a readback buffer: the padded stride times the row count.
pub fn readback_buffer_size(padded_bytes_per_row: u32, height: u32) -> (r: u64)
    ensures
        r == padded_bytes_per_row * height,
{
    proof {
        lemma_mul_upper_bound(
            padded_bytes_per_row as int,
            u32::MAX as int,
            height as int,
            u32::MAX as int,
        );
    }
    (padded_bytes_per_row as u64) * (height as u64)
}

} // verus!
