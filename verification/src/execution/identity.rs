//! The identities of an order.

use vstd::prelude::*;

use crate::text::{chars_of, digits_of, digits_of_value, int_text, int_text_injective, signed_text};
use crate::wire::{WireNumber, UNSET_BITS};

verus! {

/// The broker's permanent identifier where it identifies an order, which only a positive one does.
pub open spec fn venue_identity(perm_id: i64) -> Option<i64> {
    if perm_id > 0 {
        Some(perm_id)
    } else {
        None
    }
}

/// The broker's permanent identifier where it identifies an order.
///
/// Zero stands for an order that the broker has not acknowledged, and a negative number for none
/// at all.
pub fn broker_perm_id(perm_id: i64) -> (r: Option<i64>)
    ensures
        r == venue_identity(perm_id),
{
    if perm_id > 0 {
        Some(perm_id)
    } else {
        None
    }
}

/// The venue identity of an order: its permanent identifier where it has one, and otherwise the
/// identifier of the live order.
pub open spec fn venue_order_id_text(order_id: i32, perm_id: i64) -> Seq<char> {
    match venue_identity(perm_id) {
        Some(id) => "PERM-"@ + int_text(id as int),
        None => int_text(order_id as int),
    }
}

/// The venue identity of an order.
pub fn ib_venue_order_id(order_id: i32, perm_id: i64) -> (r: String)
    ensures
        r@ == venue_order_id_text(order_id, perm_id),
{
    match broker_perm_id(perm_id) {
        Some(id) => {
            let mut text = "PERM-".to_owned();
            text.append(signed_text(id).as_str());
            text
        },
        None => signed_text(order_id as i64),
    }
}

/// Orders with different permanent identifiers have different venue identities, and so do an
/// order with a permanent identifier and one without.
pub proof fn venue_order_ids_tell_orders_apart(
    order_a: i32,
    perm_a: i64,
    order_b: i32,
    perm_b: i64,
)
    requires
        venue_order_id_text(order_a, perm_a) == venue_order_id_text(order_b, perm_b),
    ensures
        venue_identity(perm_a) == venue_identity(perm_b),
        venue_identity(perm_a) is None ==> order_a == order_b,
{
    reveal_strlit("PERM-");
    assert("PERM-"@[0] == 'P' && "PERM-"@.len() == 5);
    let a = venue_order_id_text(order_a, perm_a);
    let b = venue_order_id_text(order_b, perm_b);
    starts_with_digit_or_minus(order_a as int);
    starts_with_digit_or_minus(order_b as int);
    if perm_a > 0 {
        assert(a[0] == 'P');
        assert(perm_b > 0);
        assert(a.subrange(5, a.len() as int) =~= int_text(perm_a as int));
        assert(b.subrange(5, b.len() as int) =~= int_text(perm_b as int));
        int_text_injective(perm_a as int, perm_b as int);
    } else {
        if perm_b > 0 {
            assert(b[0] == 'P');
        }
        int_text_injective(order_a as int, order_b as int);
    }
}

proof fn starts_with_digit_or_minus(i: int)
    ensures
        int_text(i).len() >= 1,
        int_text(i)[0] != 'P',
{
    let n: nat = if i < 0 {
        (-i) as nat
    } else {
        i as nat
    };
    digits_of_value(n);
    assert('0' <= digits_of(n)[0] <= '9');
}

/// What stands before the last `c` of a text; `None` where it holds none.
pub open spec fn before_last(s: Seq<char>, c: char) -> Option<Seq<char>>
    decreases s.len(),
{
    if s.len() == 0 {
        None
    } else if s.last() == c {
        Some(s.drop_last())
    } else {
        before_last(s.drop_last(), c)
    }
}

/// The client identity that an order reference carries: the reference without what stands from
/// its last colon on. The empty reference carries none.
pub open spec fn client_identity(order_ref: Seq<char>) -> Option<Seq<char>> {
    if order_ref.len() == 0 {
        None
    } else {
        match before_last(order_ref, ':') {
            Some(base) => Some(base),
            None => Some(order_ref),
        }
    }
}

/// The client identity that an order reference carries.
pub fn normalized_order_ref(order_ref: &str) -> (r: Option<&str>)
    ensures
        match r {
            Some(base) => client_identity(order_ref@) == Some(base@),
            None => client_identity(order_ref@) is None,
        },
{
    if order_ref.is_empty() {
        return None;
    }
    let chars = chars_of(order_ref);
    let mut i: usize = chars.len();
    assert(order_ref@.take(i as int) =~= order_ref@);
    while i > 0
        invariant
            i <= chars.len(),
            chars@ == order_ref@,
            order_ref@.len() > 0,
            before_last(order_ref@, ':') == before_last(order_ref@.take(i as int), ':'),
        decreases i,
    {
        let ghost prefix = order_ref@.take(i as int);
        assert(prefix.drop_last() =~= order_ref@.take(i - 1));
        assert(prefix.last() == order_ref@[i - 1]);
        i -= 1;
        if chars[i] == ':' {
            let base = order_ref.substring_char(0, i);
            assert(base@ =~= order_ref@.take(i as int));
            return Some(base);
        }
    }
    Some(order_ref)
}

/// What a strategy appends to a reference after a colon does not change the client identity.
pub proof fn reference_suffix_is_ignored(base: Seq<char>, suffix: Seq<char>)
    requires
        !suffix.contains(':'),
    ensures
        client_identity(base + seq![':'] + suffix) == Some(base),
    decreases suffix.len(),
{
    let s = base + seq![':'] + suffix;
    if suffix.len() == 0 {
        assert(s.last() == ':');
        assert(s.drop_last() =~= base);
    } else {
        let shorter = suffix.drop_last();
        assert(suffix.contains(suffix.last()));
        assert forall|c: char| shorter.contains(c) implies suffix.contains(c) by {
            let i = choose|i: int| 0 <= i < shorter.len() && shorter[i] == c;
            assert(suffix[i] == c);
        }
        reference_suffix_is_ignored(base, shorter);
        assert(s.drop_last() =~= base + seq![':'] + shorter);
        assert(s.last() == suffix.last());
    }
}

/// An average fill price that says something: finite, set, not zero, and above zero unless the
/// instrument is a spread.
pub open spec fn usable_average(price: WireNumber, is_spread: bool) -> bool {
    &&& price.finite()
    &&& price.bits != UNSET_BITS
    &&& !price.zero()
    &&& (price.positive() || is_spread)
}

/// Whether an average fill price says something.
pub fn should_use_avg_fill_price(avg_fill_price: &WireNumber, is_spread: bool) -> (r: bool)
    ensures
        r == usable_average(*avg_fill_price, is_spread),
{
    avg_fill_price.is_finite() && avg_fill_price.bits != UNSET_BITS && !avg_fill_price.is_zero()
        && (avg_fill_price.is_positive() || is_spread)
}

} // verus!
