//! Reading and writing bit ranges inside a 32-bit register word.
//!
//! The work is done by the `bit_field` crate; this module states what it does
//! and checks its preconditions.

use bit_field::BitField;
use vstd::prelude::*;

verus! {

/// The number `2^width - 1`: the `width` lowest bits set.
pub open spec fn ones(width: u32) -> u32 {
    if width == 0 {
        0
    } else if width > 32 {
        !0u32
    } else {
        !0u32 >> ((32 - width) as u32)
    }
}

/// The bits `[low, high)` of `word`, moved down to bit 0.
pub open spec fn range_of(word: u32, low: u32, high: u32) -> u32 {
    if low < high && high <= 32 {
        (word >> low) & ones((high - low) as u32)
    } else {
        0
    }
}

/// `word` with the bits `[low, high)` replaced by `value`.
pub open spec fn with_range(word: u32, low: u32, high: u32, value: u32) -> u32 {
    if low < high && high <= 32 {
        (word & !(ones((high - low) as u32) << low)) | (value << low)
    } else {
        word
    }
}

/// Bit `n` of `word`.
pub open spec fn bit_of(word: u32, n: u32) -> bool {
    (word >> n) & 1 == 1
}

/// `word` with bit `n` set to `value`.
pub open spec fn with_bit(word: u32, n: u32, value: bool) -> u32 {
    if value {
        word | (1u32 << n)
    } else {
        word & !(1u32 << n)
    }
}

/// Relies on `bit_field::BitField::get_bits` for `u32`, which asserts
/// `start < 32`, `end <= 32`, `start <= end`, and for `start < end` returns
/// `word << (32 - end) >> (32 - end) >> start`.
#[verifier::external_body]
fn bits_get(word: u32, low: u32, high: u32) -> (r: u32)
    requires
        low < high <= 32,
    ensures
        r == (word << ((32 - high) as u32)) >> ((32 - high) as u32) >> low,
{
    word.get_bits((low as usize)..(high as usize))
}

/// Relies on `bit_field::BitField::set_bits` for `u32`, which asserts the
/// range as `get_bits` does and that `value` fits in it, and for
/// `start < end` stores `(word & !mask) | (value << start)` where `mask` is
/// `!0 << (32 - end) >> (32 - end) >> start << start`.
#[verifier::external_body]
fn bits_set(word: u32, low: u32, high: u32, value: u32) -> (r: u32)
    requires
        low < high <= 32,
        (value << ((32 - (high - low)) as u32)) >> ((32 - (high - low)) as u32) == value,
    ensures
        r == (word & !((((!0u32 << ((32 - high) as u32)) >> ((32 - high) as u32)) >> low) << low))
            | (value << low),
{
    let mut w = word;
    w.set_bits((low as usize)..(high as usize), value);
    w
}

/// Relies on `bit_field::BitField::get_bit` for `u32`, which asserts
/// `bit < 32` and returns `word & (1 << bit) != 0`.
#[verifier::external_body]
fn bit_get(word: u32, n: u32) -> (r: bool)
    requires
        n < 32,
    ensures
        r == (word & (1u32 << n) != 0),
{
    word.get_bit(n as usize)
}

/// Relies on `bit_field::BitField::set_bit` for `u32`, which asserts
/// `bit < 32` and then ors in or masks out `1 << bit`.
#[verifier::external_body]
fn bit_set(word: u32, n: u32, value: bool) -> (r: u32)
    requires
        n < 32,
    ensures
        r == (if value { word | (1u32 << n) } else { word & !(1u32 << n) }),
{
    let mut w = word;
    w.set_bit(n as usize, value);
    w
}

/// The bits `[low, high)` of `word`, moved down to bit 0. An empty range
/// reads as 0.
pub fn get_range(word: u32, low: u32, high: u32) -> (r: u32)
    requires
        low <= high <= 32,
    ensures
        r == range_of(word, low, high),
{
    if low == high {
        0
    } else {
        let r = bits_get(word, low, high);
        let s = (32 - high) as u32;
        let w = (high - low) as u32;
        assert(ones(w) == !0u32 >> ((32 - w) as u32));
        assert((word << s) >> s >> low == (word >> low) & (!0u32 >> ((32 - w) as u32)))
            by (bit_vector)
            requires
                low < high <= 32,
                s == 32 - high,
                w == high - low,
        ;
        r
    }
}

/// `word` with the bits `[low, high)` replaced by `value`; the other bits are
/// kept.
pub fn set_range(word: u32, low: u32, high: u32, value: u32) -> (r: u32)
    requires
        low <= high <= 32,
        value <= ones((high - low) as u32),
    ensures
        r == with_range(word, low, high, value),
{
    if low == high {
        word
    } else {
        let s = (32 - high) as u32;
        let w = (high - low) as u32;
        let t = (32 - w) as u32;
        assert(ones(w) == !0u32 >> t);
        assert((value << t) >> t == value) by (bit_vector)
            requires
                value <= !0u32 >> t,
                t < 32,
        ;
        let r = bits_set(word, low, high, value);
        assert((((!0u32 << s) >> s) >> low) << low == (!0u32 >> t) << low) by (bit_vector)
            requires
                low < high <= 32,
                s == 32 - high,
                t == 32 - (high - low),
        ;
        r
    }
}

/// Bit `n` of `word`.
pub fn get_bit(word: u32, n: u32) -> (r: bool)
    requires
        n < 32,
    ensures
        r == bit_of(word, n),
{
    let r = bit_get(word, n);
    assert((word & (1u32 << n) != 0) == ((word >> n) & 1 == 1)) by (bit_vector)
        requires
            n < 32,
    ;
    r
}

/// `word` with bit `n` set to `value`; the other bits are kept.
pub fn set_bit(word: u32, n: u32, value: bool) -> (r: u32)
    requires
        n < 32,
    ensures
        r == with_bit(word, n, value),
{
    bit_set(word, n, value)
}

/// Writing a value into a bit range and reading the range back gives the value,
/// and every bit outside the range is the same before and after the write.
pub proof fn lemma_range_round_trip(word: u32, low: u32, high: u32, value: u32)
    requires
        low <= high <= 32,
        value <= ones((high - low) as u32),
    ensures
        range_of(with_range(word, low, high, value), low, high) == value,
        forall|n: u32|
            n < 32 && (n < low || n >= high) ==> #[trigger] bit_of(
                with_range(word, low, high, value),
                n,
            ) == bit_of(word, n),
{
    if low < high {
        let t = (32 - (high - low)) as u32;
        let m = !0u32 >> t;
        assert(ones((high - low) as u32) == m);
        let new = with_range(word, low, high, value);
        assert(new == (word & !(m << low)) | (value << low));
        assert((((word & !(m << low)) | (value << low)) >> low) & m == value) by (bit_vector)
            requires
                value <= m,
                m == !0u32 >> t,
                low < high <= 32,
                t == 32 - (high - low),
        ;
        assert forall|n: u32| n < 32 && (n < low || n >= high) implies #[trigger] bit_of(
            with_range(word, low, high, value),
            n,
        ) == bit_of(word, n) by {
            assert((((word & !(m << low)) | (value << low)) >> n) & 1 == (word >> n) & 1)
                by (bit_vector)
                requires
                    value <= m,
                    m == !0u32 >> t,
                    low < high <= 32,
                    t == 32 - (high - low),
                    n < 32,
                    n < low || n >= high,
            ;
        }
    }
}

} // verus!
