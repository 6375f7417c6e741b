//! Tick sizes to precisions.

use vstd::prelude::*;
use vstd::utf8::encode_utf8;

use crate::bytes::{fields, split, views};
use crate::wire::WireNumber;

verus! {

/// A text without the zeros at its end.
pub open spec fn without_trailing_zeros(b: Seq<u8>) -> Seq<u8>
    decreases b.len(),
{
    if b.len() > 0 && b.last() == 48 {
        without_trailing_zeros(b.drop_last())
    } else {
        b
    }
}

/// The number of digits behind the one point of a text, up to eight; zero where there is no one
/// point.
pub open spec fn decimals_of(b: Seq<u8>) -> u8 {
    let parts = fields(without_trailing_zeros(b), 46);
    if parts.len() == 2 {
        if parts[1].len() < 8 {
            parts[1].len() as u8
        } else {
            8
        }
    } else {
        0
    }
}

/// The precision of a tick size: eight where it is not above zero, and otherwise the number of its
/// decimals that count.
pub open spec fn tick_precision(tick_size: WireNumber) -> u8 {
    if !tick_size.nan() && tick_size.rank() <= 0 {
        8
    } else {
        decimals_of(encode_utf8(tick_size.fixed@))
    }
}

/// The precision of a tick size.
pub fn tick_size_to_precision(tick_size: &WireNumber) -> (r: u8)
    ensures
        r == tick_precision(*tick_size),
        r <= 8,
{
    if !tick_size.is_nan() && !tick_size.is_positive() {
        return 8;
    }
    let b = tick_size.fixed.as_str().as_bytes();
    let mut end: usize = b.len();
    assert(b@.take(end as int) =~= b@);
    while end > 0 && b[end - 1] == 48
        invariant
            end <= b@.len(),
            without_trailing_zeros(b@) == without_trailing_zeros(b@.take(end as int)),
        decreases end,
    {
        assert(b@.take(end as int).drop_last() =~= b@.take(end - 1));
        end -= 1;
    }
    assert(without_trailing_zeros(b@) == b@.take(end as int));
    let kept = &b[0..end];
    assert(kept@ =~= b@.take(end as int));
    let parts = split(kept, 46);
    assert(views(parts@).len() == parts@.len());
    if parts.len() == 2 {
        assert(views(parts@)[1] == parts@[1]@);
        if parts[1].len() < 8 {
            parts[1].len() as u8
        } else {
            8
        }
    } else {
        0
    }
}

proof fn one_field_without_separator(b: Seq<u8>, separator: u8)
    requires
        !b.contains(separator),
    ensures
        fields(b, separator) == seq![b],
    decreases b.len(),
{
    if b.len() > 0 {
        let before = b.drop_last();
        assert forall|x: u8| before.contains(x) implies b.contains(x) by {
            let i = choose|i: int| 0 <= i < before.len() && before[i] == x;
            assert(b[i] == x);
        }
        one_field_without_separator(before, separator);
        assert(b.contains(b.last()));
        assert(before.push(b.last()) =~= b);
        assert(fields(b, separator) =~= seq![b]);
    } else {
        assert(b =~= Seq::empty());
    }
}

proof fn two_fields_around_separator(whole: Seq<u8>, separator: u8, rest: Seq<u8>)
    requires
        !whole.contains(separator),
        !rest.contains(separator),
    ensures
        fields(whole + seq![separator] + rest, separator) == seq![whole, rest],
    decreases rest.len(),
{
    let b = whole + seq![separator] + rest;
    if rest.len() == 0 {
        one_field_without_separator(whole, separator);
        assert(b.drop_last() =~= whole);
        assert(rest =~= Seq::empty());
        assert(fields(b, separator) =~= seq![whole, rest]);
    } else {
        let before = rest.drop_last();
        assert forall|x: u8| before.contains(x) implies rest.contains(x) by {
            let i = choose|i: int| 0 <= i < before.len() && before[i] == x;
            assert(rest[i] == x);
        }
        two_fields_around_separator(whole, separator, before);
        assert(b.drop_last() =~= whole + seq![separator] + before);
        assert(rest.contains(rest.last()));
        assert(b.last() == rest.last());
        assert(before.push(rest.last()) =~= rest);
        assert(fields(b, separator) =~= seq![whole, rest]);
    }
}

proof fn zeros_are_stripped(kept: Seq<u8>, zeros: Seq<u8>)
    requires
        kept.len() == 0 || kept.last() != 48,
        forall|i: int| 0 <= i < zeros.len() ==> zeros[i] == 48,
    ensures
        without_trailing_zeros(kept + zeros) == kept,
    decreases zeros.len(),
{
    if zeros.len() == 0 {
        assert(kept + zeros =~= kept);
    } else {
        assert((kept + zeros).drop_last() =~= kept + zeros.drop_last());
        zeros_are_stripped(kept, zeros.drop_last());
    }
}

/// Of a number written as whole part, point and decimals, the decimals count up to the last one
/// that is not zero, and eight of them at most.
pub proof fn decimals_count_to_the_last_nonzero_one(
    whole: Seq<u8>,
    decimals: Seq<u8>,
    zeros: Seq<u8>,
)
    requires
        !whole.contains(46),
        !decimals.contains(46),
        decimals.len() == 0 || decimals.last() != 48,
        forall|i: int| 0 <= i < zeros.len() ==> zeros[i] == 48,
    ensures
        decimals_of(whole + seq![46u8] + decimals + zeros) == (if decimals.len() < 8 {
            decimals.len() as u8
        } else {
            8
        }),
{
    let kept = whole + seq![46u8] + decimals;
    zeros_are_stripped(kept, zeros);
    two_fields_around_separator(whole, 46, decimals);
}

} // verus!
