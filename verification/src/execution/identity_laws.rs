//! What identifies an order in its reports.

use vstd::prelude::*;

use crate::execution::identity::{
    before_last, broker_perm_id, client_identity, ib_venue_order_id, normalized_order_ref,
    should_use_avg_fill_price, venue_order_id_text,
};
use crate::text::int_text;
use crate::text_laws::{renderings_write_their_integers, writes, writing_tells_integers_apart};
use crate::wire::WireNumber;
use crate::wire_laws::{above_zero, infinite_bits, nan_bits, zero_bits};

verus! {

/// `text` is the venue identity of an order: `PERM-` and the permanent identifier where that is
/// positive, and otherwise the identifier of the live order.
pub open spec fn identifies(text: Seq<char>, order_id: i32, perm_id: i64) -> bool {
    if perm_id > 0 {
        text.len() > 5 && text.take(5) == "PERM-"@ && writes(text.skip(5), perm_id as int)
    } else {
        writes(text, order_id as int)
    }
}

/// The text of a venue identity is that of its order.
pub proof fn venue_texts_identify(order_id: i32, perm_id: i64)
    ensures
        identifies(venue_order_id_text(order_id, perm_id), order_id, perm_id),
{
    reveal_strlit("PERM-");
    assert("PERM-"@.len() == 5);
    renderings_write_their_integers(perm_id as int);
    renderings_write_their_integers(order_id as int);
    if perm_id > 0 {
        let text = venue_order_id_text(order_id, perm_id);
        assert(text.take(5) =~= "PERM-"@);
        assert(text.skip(5) =~= int_text(perm_id as int));
    }
}

/// An order is identified by its permanent identifier where the broker has given it a positive one,
/// and otherwise by the identifier of the live order.
pub proof fn venue_identities_are_the_brokers(
    order_id: i32,
    perm_id: i64,
    text: String,
    identity: Option<i64>,
)
    requires
        call_ensures(ib_venue_order_id, (order_id, perm_id), text),
        call_ensures(broker_perm_id, (perm_id,), identity),
    ensures
        identifies(text@, order_id, perm_id),
        identity == (if perm_id > 0 {
            Some(perm_id)
        } else {
            None
        }),
{
    venue_texts_identify(order_id, perm_id);
}

/// A text identifies one order only: with the same text, orders have the same positive permanent
/// identifier, or neither has one and the live identifier is the same.
pub proof fn identities_tell_orders_apart(
    text: Seq<char>,
    order_a: i32,
    perm_a: i64,
    order_b: i32,
    perm_b: i64,
)
    requires
        identifies(text, order_a, perm_a),
        identifies(text, order_b, perm_b),
    ensures
        perm_a > 0 <==> perm_b > 0,
        perm_a > 0 ==> perm_a == perm_b,
        perm_a <= 0 ==> order_a == order_b,
{
    reveal_strlit("PERM-");
    assert("PERM-"@[0] == 'P');
    if perm_a > 0 {
        assert(text.take(5)[0] == text[0]);
        if perm_b > 0 {
            writing_tells_integers_apart(text.skip(5), perm_a as int, perm_b as int);
        }
    } else if perm_b > 0 {
        assert(text.take(5)[0] == text[0]);
    } else {
        writing_tells_integers_apart(text, order_a as int, order_b as int);
    }
}

/// `client` is the client identity in an order reference: nothing for the empty reference, and
/// otherwise what stands before the last colon, or all of it where it has no colon.
pub open spec fn carries(order_ref: Seq<char>, client: Option<Seq<char>>) -> bool {
    match client {
        None => order_ref.len() == 0,
        Some(base) => {
            &&& order_ref.len() > 0
            &&& {
                ||| base == order_ref && !order_ref.contains(':')
                ||| exists|suffix: Seq<char>|
                    order_ref == #[trigger] (base + seq![':'] + suffix) && !suffix.contains(':')
            }
        },
    }
}

proof fn bases_stand_before_the_last_colon(s: Seq<char>) -> (suffix: Seq<char>)
    ensures
        before_last(s, ':') is None <==> !s.contains(':'),
        before_last(s, ':') matches Some(base) ==> s == base + seq![':'] + suffix
            && !suffix.contains(':'),
    decreases s.len(),
{
    if s.len() == 0 {
        Seq::empty()
    } else if s.last() == ':' {
        assert(s[s.len() - 1] == ':');
        assert(s =~= s.drop_last() + seq![':'] + Seq::<char>::empty());
        Seq::empty()
    } else {
        let shorter = s.drop_last();
        let suffix = bases_stand_before_the_last_colon(shorter);
        assert(s.contains(':') ==> shorter.contains(':')) by {
            if s.contains(':') {
                let i = choose|i: int| 0 <= i < s.len() && s[i] == ':';
                assert(shorter[i] == ':');
            }
        }
        assert(shorter.contains(':') ==> s.contains(':')) by {
            if shorter.contains(':') {
                let i = choose|i: int| 0 <= i < shorter.len() && shorter[i] == ':';
                assert(s[i] == ':');
            }
        }
        let longer = suffix.push(s.last());
        if before_last(s, ':') is Some {
            let base = before_last(s, ':')->0;
            assert(shorter == base + seq![':'] + suffix);
            assert(s =~= shorter.push(s.last()));
            assert(shorter.push(s.last()) =~= base + seq![':'] + longer);
            assert forall|i: int| 0 <= i < longer.len() implies longer[i] != ':' by {
                if i < suffix.len() {
                    assert(suffix.contains(suffix[i]));
                }
            }
        }
        longer
    }
}

/// The client identity of a reference is the one that it carries.
pub proof fn references_carry_their_client(order_ref: Seq<char>)
    ensures
        carries(order_ref, client_identity(order_ref)),
{
    let suffix = bases_stand_before_the_last_colon(order_ref);
    if order_ref.len() > 0 && before_last(order_ref, ':') is Some {
        let base = before_last(order_ref, ':')->0;
        assert(order_ref == base + seq![':'] + suffix);
    }
}

/// A reference carries one client identity only.
pub proof fn references_carry_one_client(
    order_ref: Seq<char>,
    a: Option<Seq<char>>,
    b: Option<Seq<char>>,
)
    requires
        carries(order_ref, a),
        carries(order_ref, b),
    ensures
        a == b,
{
    if a is Some && b is Some && a != b {
        let x = a->0;
        let y = b->0;
        if order_ref.contains(':') {
            let s = choose|suffix: Seq<char>|
                order_ref == #[trigger] (x + seq![':'] + suffix) && !suffix.contains(':');
            let t = choose|suffix: Seq<char>|
                order_ref == #[trigger] (y + seq![':'] + suffix) && !suffix.contains(':');
            assert(order_ref[x.len() as int] == ':' && order_ref[y.len() as int] == ':');
            if x.len() < y.len() {
                assert(s[y.len() - x.len() - 1] == ':');
            } else if y.len() < x.len() {
                assert(t[x.len() - y.len() - 1] == ':');
            }
            assert(x =~= order_ref.take(x.len() as int));
            assert(y =~= order_ref.take(y.len() as int));
        } else {
            colons_are_held(order_ref, x);
            colons_are_held(order_ref, y);
        }
    }
}

proof fn colons_are_held(order_ref: Seq<char>, base: Seq<char>)
    ensures
        forall|suffix: Seq<char>|
            order_ref == #[trigger] (base + seq![':'] + suffix) ==> order_ref.contains(':'),
{
    assert forall|suffix: Seq<char>|
        order_ref == #[trigger] (base + seq![':'] + suffix) implies order_ref.contains(':') by {
        assert(order_ref[base.len() as int] == ':');
    }
}

/// The client identity that is read from a reference is the one that it carries.
pub proof fn clients_are_read_from_references(order_ref: &str, client: Option<&str>)
    requires
        call_ensures(normalized_order_ref, (order_ref,), client),
    ensures
        carries(
            order_ref@,
            match client {
                Some(base) => Some(base@),
                None => None,
            },
        ),
{
    references_carry_their_client(order_ref@);
}

/// An average fill price that says something: it is finite, it is not the largest number, which
/// stands for none, and it is above zero, or below it for a spread.
pub open spec fn says_something(price: WireNumber, is_spread: bool) -> bool {
    &&& !nan_bits(price.bits) && !infinite_bits(price.bits)
    &&& price.bits != 0x7FEF_FFFF_FFFF_FFFF
    &&& !zero_bits(price.bits)
    &&& above_zero(price.bits) || is_spread
}

/// An average fill price is used exactly where it says something.
pub proof fn averages_are_used_where_they_say_something(
    price: &WireNumber,
    is_spread: bool,
    used: bool,
)
    requires
        call_ensures(should_use_avg_fill_price, (price, is_spread), used),
    ensures
        used == says_something(*price, is_spread),
{
}

} // verus!
