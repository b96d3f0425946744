//! Construction of output file names: every exported frame is written to
//! `{output_dir}/{frame_id:05}.{extension}`, the frame id printed in decimal
//! and zero-padded on the left to at least five digits.

use vstd::prelude::*;
use vstd::arithmetic::div_mod::lemma_small_mod;

verus! {

/// The character for a single decimal digit.
pub open spec fn digit_char(d: nat) -> char
    recommends
        d < 10,
{
    if d == 0 {
        '0'
    } else if d == 1 {
        '1'
    } else if d == 2 {
        '2'
    } else if d == 3 {
        '3'
    } else if d == 4 {
        '4'
    } else if d == 5 {
        '5'
    } else if d == 6 {
        '6'
    } else if d == 7 {
        '7'
    } else if d == 8 {
        '8'
    } else {
        '9'
    }
}

/// The decimal digits of `n`, most significant first, without leading zeros
/// (the single digit `0` for zero).
pub open spec fn dec_digits(n: nat) -> Seq<char>
    decreases n,
{
    if n < 10 {
        seq![digit_char(n)]
    } else {
        dec_digits(n / 10).push(digit_char(n % 10))
    }
}

/// The decimal digits of `n`, zero-padded on the left to at least five
/// characters.
pub open spec fn zero_padded5(n: nat) -> Seq<char> {
    if dec_digits(n).len() >= 5 {
        dec_digits(n)
    } else {
        Seq::new((5 - dec_digits(n).len()) as nat, |i: int| '0') + dec_digits(n)
    }
}

/// The full path of one exported frame:
/// the output directory, a slash, the zero-padded frame id, a dot, and the
/// file extension.
pub open spec fn spec_frame_path(dir: Seq<char>, frame_id: nat, ext: Seq<char>) -> Seq<char> {
    dir + seq!['/'] + zero_padded5(frame_id) + seq!['.'] + ext
}

/// Relies on String::push: appends exactly the given character.
#[verifier::external_body]
pub(crate) fn push_char(s: &mut String, c: char)
    ensures
        final(s)@ == old(s)@ + seq![c],
{
    s.push(c)
}

/// Relies on str's equality: two string slices are equal exactly when their
/// character sequences are.
#[verifier::external_body]
pub(crate) fn str_eq(a: &str, b: &str) -> (r: bool)
    ensures
        r == (a@ == b@),
{
    a == b
}

fn digit_to_char(d: u64) -> (c: char)
    requires
        d < 10,
    ensures
        c == digit_char(d as nat),
{
    if d == 0 {
        '0'
    } else if d == 1 {
        '1'
    } else if d == 2 {
        '2'
    } else if d == 3 {
        '3'
    } else if d == 4 {
        '4'
    } else if d == 5 {
        '5'
    } else if d == 6 {
        '6'
    } else if d == 7 {
        '7'
    } else if d == 8 {
        '8'
    } else {
        '9'
    }
}

/// Appends the decimal digits of `n` to `s`.
fn push_decimal(s: &mut String, n: u64)
    ensures
        final(s)@ == old(s)@ + dec_digits(n as nat),
    decreases n,
{
    if n >= 10 {
        push_decimal(s, n / 10);
    }
    push_char(s, digit_to_char(n % 10));
    proof {
        if n < 10 {
            lemma_small_mod(n as nat, 10);
        }
        assert(final(s)@ =~= old(s)@ + dec_digits(n as nat));
    }
}

/// `n` has fewer than five decimal digits exactly in these ranges.
proof fn lemma_dec_digits_len(n: nat)
    ensures
        n < 10 ==> dec_digits(n).len() == 1,
        10 <= n < 100 ==> dec_digits(n).len() == 2,
        100 <= n < 1000 ==> dec_digits(n).len() == 3,
        1000 <= n < 10000 ==> dec_digits(n).len() == 4,
        10000 <= n ==> dec_digits(n).len() >= 5,
    decreases n,
{
    if n >= 10 {
        lemma_dec_digits_len(n / 10);
    }
}

/// Builds the path that one exported frame is written to:
/// `{output_dir}/{frame_id:05}.{extension}`.
pub fn frame_file_name(output_dir: &str, frame_id: u64, extension: &str) -> (r: String)
    ensures
        r@ == spec_frame_path(output_dir@, frame_id as nat, extension@),
{
    let mut s = String::from_str(output_dir);
    push_char(&mut s, '/');
    proof {
        lemma_dec_digits_len(frame_id as nat);
    }
    let ghost before_pad = s@;
    let zeros: usize = if frame_id < 10 {
        4
    } else if frame_id < 100 {
        3
    } else if frame_id < 1000 {
        2
    } else if frame_id < 10000 {
        1
    } else {
        0
    };
    proof {
        assert(s@ =~= before_pad + Seq::new(0, |i: int| '0'));
    }
    let mut z: usize = 0;
    while z < zeros
        invariant
            z <= zeros,
            s@ == before_pad + Seq::new(z as nat, |i: int| '0'),
        decreases zeros - z,
    {
        push_char(&mut s, '0');
        proof {
            assert(s@ =~= before_pad + Seq::new((z + 1) as nat, |i: int| '0'));
        }
        z = z + 1;
    }
    push_decimal(&mut s, frame_id);
    push_char(&mut s, '.');
    s.append(extension);
    proof {
        assert(zeros as nat == if dec_digits(frame_id as nat).len() >= 5 {
            0
        } else {
            (5 - dec_digits(frame_id as nat).len()) as nat
        });
        assert(s@ =~= spec_frame_path(output_dir@, frame_id as nat, extension@));
    }
    s
}

} // verus!
