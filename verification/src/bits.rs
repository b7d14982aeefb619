//! 64-bit numbers read with and without a sign.

use vstd::prelude::*;

verus! {

/// The signed number with the same 64 bits.
pub open spec fn signed_bits(n: u64) -> i64 {
    if n <= i64::MAX {
        n as i64
    } else {
        (n - 0x1_0000_0000_0000_0000) as i64
    }
}

/// The number without sign that has the same 64 bits.
pub open spec fn unsigned_bits(n: i64) -> u64 {
    if n >= 0 {
        n as u64
    } else {
        (n + 0x1_0000_0000_0000_0000) as u64
    }
}

/// Reads 64 bits as a signed number.
pub fn to_signed(n: u64) -> (r: i64)
    ensures
        r == signed_bits(n),
{
    if n <= 9_223_372_036_854_775_807 {
        n as i64
    } else {
        let above: u64 = n - 9_223_372_036_854_775_808;
        (above as i64) + i64::MIN
    }
}

/// Reads 64 bits as a number without sign.
pub fn to_unsigned(n: i64) -> (r: u64)
    ensures
        r == unsigned_bits(n),
{
    if n >= 0 {
        n as u64
    } else {
        let above: i64 = n + 9_223_372_036_854_775_807 + 1;
        (above as u64) + 9_223_372_036_854_775_808
    }
}

/// The two readings undo each other.
pub proof fn law_readings_are_inverse(n: u64, m: i64)
    ensures
        unsigned_bits(signed_bits(n)) == n,
        signed_bits(unsigned_bits(m)) == m,
{
}

/// A number below 2^63 is read as itself with a sign, and any other as itself
/// less 2^64; the way back adds it again.
pub proof fn law_readings_differ_by_a_power_of_two(n: u64, s: i64, m: i64, u: u64)
    requires
        call_ensures(to_signed, (n,), s),
        call_ensures(to_unsigned, (m,), u),
    ensures
        s == n || s == n - 0x1_0000_0000_0000_0000,
        u == m || u == m + 0x1_0000_0000_0000_0000,
        s == m <==> u == n,
{
}

} // verus!
