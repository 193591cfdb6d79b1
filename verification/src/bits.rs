//! Bit-level and division lemmas the register operations rest on.

use vstd::prelude::*;

verus! {

/// Setting bit `s` of a word raises exactly that bit: bit `s` reads 1 and
/// every other bit is unchanged.
pub proof fn lemma_or_bit(w: u32, s: u32, t: u32)
    by (bit_vector)
    requires
        s < 32,
        t < 32,
    ensures
        ((w | (1u32 << s)) >> s) & 1 == 1,
        s != t ==> ((w | (1u32 << s)) >> t) & 1 == (w >> t) & 1,
{
}

/// Clearing bit `s` of a word lowers exactly that bit.
pub proof fn lemma_andnot_bit(w: u32, s: u32, t: u32)
    by (bit_vector)
    requires
        s < 32,
        t < 32,
    ensures
        ((w & !(1u32 << s)) >> s) & 1 == 0,
        s != t ==> ((w & !(1u32 << s)) >> t) & 1 == (w >> t) & 1,
{
}

/// Replacing the 3-bit field at `s` installs `m` there and leaves every other
/// 3-bit field (both shifts multiples of 3, at most 27) unchanged.
pub proof fn lemma_mode_field(w: u32, s: u32, t: u32, m: u32)
    by (bit_vector)
    requires
        s <= 27,
        t <= 27,
        s % 3 == 0,
        t % 3 == 0,
        m < 8,
    ensures
        (((w & !(7u32 << s)) | (m << s)) >> s) & 7 == m,
        s != t ==> (((w & !(7u32 << s)) | (m << s)) >> t) & 7 == (w >> t) & 7,
{
}

/// Writing the 2-bit selector into the control word sets its low bits to the
/// selector; clearing them leaves the low bits zero.
pub proof fn lemma_ctrl_field(w: u32, p: u32)
    by (bit_vector)
    ensures
        (((w & !3) | (p & 3)) & 3) == p & 3,
        (w & !3) & 3 == 0,
{
}

/// Any bit or 3-bit field of the zero word is zero, and masked fields are
/// bounded.
pub proof fn lemma_field_of_zero(s: u32)
    by (bit_vector)
    requires
        s < 32,
    ensures
        (0u32 >> s) & 1 == 0,
        (0u32 >> s) & 7 == 0,
{
}

/// A masked 3-bit field is below 8, and a masked bit below 2.
pub proof fn lemma_field_bounds(w: u32, s: u32)
    by (bit_vector)
    ensures
        (w >> s) & 7 < 8,
        (w >> s) & 1 < 2,
{
}

/// Two distinct numbers with the same quotient have distinct remainders.
pub proof fn lemma_same_div_distinct_mod(p: int, q: int, d: int)
    by (nonlinear_arith)
    requires
        0 <= p,
        0 <= q,
        0 < d,
        p != q,
        p / d == q / d,
    ensures
        p % d != q % d,
{
}

/// Bounds of a quotient: a number below `d * b` divides by `d` to below `b`.
pub proof fn lemma_div_bound(p: int, d: int, b: int)
    by (nonlinear_arith)
    requires
        0 <= p,
        0 < d,
        0 < b,
        p < d * b,
    ensures
        0 <= p / d < b,
{
}

/// Bounds of a remainder.
pub proof fn lemma_mod_bound(p: int, d: int)
    by (nonlinear_arith)
    requires
        0 <= p,
        0 < d,
    ensures
        0 <= p % d < d,
{
}

} // verus!
