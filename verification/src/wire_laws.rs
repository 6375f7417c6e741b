//! What the bit pattern of a binary64 number says of it.

use vstd::prelude::*;

use crate::wire::WireNumber;

verus! {

/// The pattern of a NaN: all exponent bits set and a fraction other than zero, under either sign.
pub open spec fn nan_bits(bits: u64) -> bool {
    0x7FF0_0000_0000_0000 < bits < 0x8000_0000_0000_0000 || bits > 0xFFF0_0000_0000_0000
}

/// The pattern of an infinity.
pub open spec fn infinite_bits(bits: u64) -> bool {
    bits == 0x7FF0_0000_0000_0000 || bits == 0xFFF0_0000_0000_0000
}

/// The pattern of a zero of either sign.
pub open spec fn zero_bits(bits: u64) -> bool {
    bits == 0 || bits == 0x8000_0000_0000_0000
}

/// The pattern of a number above zero.
pub open spec fn above_zero(bits: u64) -> bool {
    0 < bits <= 0x7FF0_0000_0000_0000
}

/// The pattern of a number below zero.
pub open spec fn below_zero(bits: u64) -> bool {
    0x8000_0000_0000_0000 < bits <= 0xFFF0_0000_0000_0000
}

/// The number with the first pattern is less than that with the second: within one sign the
/// patterns order the magnitudes, and a NaN is less than nothing.
pub open spec fn less(a: u64, b: u64) -> bool {
    ||| above_zero(a) && above_zero(b) && a < b
    ||| below_zero(a) && below_zero(b) && a > b
    ||| zero_bits(a) && above_zero(b)
    ||| below_zero(a) && (zero_bits(b) || above_zero(b))
}

/// A number is classed by its pattern: it is finite unless it is an infinity or a NaN, and it is
/// exactly one of a NaN, zero, above zero and below zero.
pub proof fn numbers_are_classed_by_their_bits(
    x: &WireNumber,
    finite: bool,
    nan: bool,
    zero: bool,
    positive: bool,
    negative: bool,
)
    requires
        call_ensures(WireNumber::is_finite, (x,), finite),
        call_ensures(WireNumber::is_nan, (x,), nan),
        call_ensures(WireNumber::is_zero, (x,), zero),
        call_ensures(WireNumber::is_positive, (x,), positive),
        call_ensures(WireNumber::is_negative, (x,), negative),
    ensures
        finite == !(nan_bits(x.bits) || infinite_bits(x.bits)),
        nan == nan_bits(x.bits),
        zero == zero_bits(x.bits),
        positive == above_zero(x.bits),
        negative == below_zero(x.bits),
{
}

/// Numbers are compared by their values.
pub proof fn numbers_are_ordered_by_their_values(a: &WireNumber, b: &WireNumber, below: bool)
    requires
        call_ensures(WireNumber::is_below, (a, b), below),
    ensures
        below == less(a.bits, b.bits),
{
}

/// The order of numbers is one: no number is below itself, two are not below each other, and it
/// carries over from one number to the next.
pub proof fn order_of_numbers(a: u64, b: u64, c: u64)
    ensures
        !less(a, a),
        !(less(a, b) && less(b, a)),
        less(a, b) && less(b, c) ==> less(a, c),
        !nan_bits(a) && !nan_bits(b) ==> less(a, b) || less(b, a) || a == b || (zero_bits(a)
            && zero_bits(b)),
{
}

/// The smaller of two numbers is one of them, and neither is below it; a NaN is chosen only where
/// both are.
pub proof fn smaller_number_is_one_of_the_two(a: &WireNumber, b: &WireNumber, smaller: WireNumber)
    requires
        call_ensures(WireNumber::min, (a, b), smaller),
    ensures
        smaller == *a || smaller == *b,
        !less(a.bits, smaller.bits) && !less(b.bits, smaller.bits),
        nan_bits(smaller.bits) ==> nan_bits(a.bits) && nan_bits(b.bits),
        !nan_bits(a.bits) && !less(b.bits, a.bits) ==> smaller == *a,
        nan_bits(a.bits) ==> smaller == *b,
{
}

} // verus!
