//! Texts of ASCII characters and their bytes.

use vstd::prelude::*;
use vstd::utf8::{encode_utf8, is_ascii_chars, is_ascii_chars_encode_utf8};

use crate::bytes::{
    bytes_value, digit_bytes, fields, fields_exist, parse_i32, parse_u8, signed_value, split,
    unsigned_value, views,
};
use crate::text_laws::{number_in, number_in_is_positional};

verus! {

/// The bytes of ASCII characters, one for each.
pub open spec fn ascii(text: Seq<char>) -> Seq<u8> {
    Seq::new(text.len(), |i: int| text[i] as u8)
}

/// ASCII characters are encoded as one byte each.
pub proof fn ascii_is_encoded(text: Seq<char>)
    requires
        is_ascii_chars(text),
    ensures
        encode_utf8(text) == ascii(text),
{
    is_ascii_chars_encode_utf8(text);
    assert(encode_utf8(text) =~= ascii(text));
}

/// A character stands in a text exactly where its byte stands in the bytes.
pub proof fn ascii_keeps_places(text: Seq<char>, c: char)
    requires
        is_ascii_chars(text),
        (c as u32) < 128,
    ensures
        ascii(text).contains(c as u8) <==> text.contains(c),
{
    if text.contains(c) {
        let i = choose|i: int| 0 <= i < text.len() && text[i] == c;
        assert(ascii(text)[i] == c as u8);
    }
    if ascii(text).contains(c as u8) {
        let i = choose|i: int| 0 <= i < ascii(text).len() && ascii(text)[i] == c as u8;
        assert(text[i] as u8 == c as u8);
        assert(text[i] == c);
    }
}

/// The number of a numeral is that of its bytes.
pub proof fn numerals_in_bytes(text: Seq<char>)
    requires
        forall|i: int| 0 <= i < text.len() ==> '0' <= #[trigger] text[i] <= '9',
    ensures
        digit_bytes(ascii(text)),
        bytes_value(ascii(text)) == number_in(text),
        is_ascii_chars(text),
    decreases text.len(),
{
    number_in_is_positional(text);
    if text.len() > 0 {
        let before = text.drop_last();
        numerals_in_bytes(before);
        number_in_is_positional(before);
        assert(ascii(text).drop_last() =~= ascii(before));
        assert('0' <= text[text.len() - 1] <= '9');
    }
}

/// A numeral is read as its number, signed or not.
pub proof fn numerals_are_read(text: Seq<char>, max: int)
    requires
        text.len() > 0,
        forall|i: int| 0 <= i < text.len() ==> '0' <= #[trigger] text[i] <= '9',
        number_in(text) <= max,
    ensures
        unsigned_value(ascii(text), max) == Some(number_in(text)),
        signed_value(ascii(text), i32::MIN as int, max) == Some(number_in(text)),
{
    numerals_in_bytes(text);
    assert('0' <= text[0] <= '9');
    assert(48 <= ascii(text)[0] <= 57);
}

/// Fields with a separator between each two of them.
pub open spec fn joined(parts: Seq<Vec<u8>>, separator: u8) -> Seq<u8>
    decreases parts.len(),
{
    if parts.len() == 0 {
        Seq::empty()
    } else if parts.len() == 1 {
        parts[0]@
    } else {
        joined(parts.drop_last(), separator) + seq![separator] + parts.last()@
    }
}

proof fn fields_join(b: Seq<u8>, separator: u8, parts: Seq<Vec<u8>>)
    requires
        parts.len() > 0,
        fields(b, separator).len() == parts.len(),
        forall|i: int| 0 <= i < parts.len() ==> (#[trigger] parts[i])@ == fields(b, separator)[i],
    ensures
        joined(parts, separator) == b,
        forall|i: int| 0 <= i < parts.len() ==> !(#[trigger] parts[i])@.contains(separator),
    decreases parts.len(),
{
    last_field_ends_the_text(b, separator);
    let all = fields(b, separator);
    let last = parts.len() - 1;
    assert(parts[last]@ == all[last]);
    if parts.len() > 1 {
        let before = b.take(b.len() - all.last().len() - 1);
        let fewer = parts.drop_last();
        assert forall|i: int| 0 <= i < fewer.len() implies (#[trigger] fewer[i])@ == fields(
            before,
            separator,
        )[i] by {
            assert(fewer[i] == parts[i]);
            assert(all[i] == all.drop_last()[i]);
        }
        fields_join(before, separator, fewer);
        assert(b =~= before + seq![separator] + all.last());
        assert forall|i: int| 0 <= i < parts.len() implies !(#[trigger] parts[i])@.contains(
            separator,
        ) by {
            if i < last {
                assert(fewer[i] == parts[i]);
            }
        }
    } else {
        assert(b =~= all.last());
    }
}

proof fn last_field_ends_the_text(b: Seq<u8>, separator: u8)
    ensures
        ({
            let all = fields(b, separator);
            let rest = b.len() - all.last().len();
            &&& all.len() >= 1
            &&& all.last().len() <= b.len()
            &&& !all.last().contains(separator)
            &&& b.skip(rest) == all.last()
            &&& all.len() == 1 ==> rest == 0
            &&& all.len() > 1 ==> rest > 0 && b[rest - 1] == separator && fields(
                b.take(rest - 1),
                separator,
            ) == all.drop_last()
        }),
    decreases b.len(),
{
    let all = fields(b, separator);
    if b.len() == 0 {
        assert(b.skip(0) =~= all.last());
    } else {
        let shorter = b.drop_last();
        last_field_ends_the_text(shorter, separator);
        let before = fields(shorter, separator);
        let rest = b.len() - all.last().len();
        if b.last() == separator {
            assert(b.skip(rest) =~= all.last());
            assert(b.take(rest - 1) =~= shorter);
            assert(all.drop_last() =~= before);
        } else {
            assert(all.last() =~= before.last().push(b.last()));
            assert(b.skip(rest) =~= shorter.skip(rest).push(b.last()));
            assert forall|i: int| 0 <= i < all.last().len() implies all.last()[i] != separator by {
                if i < before.last().len() {
                    assert(before.last().contains(before.last()[i]));
                }
            }
            if all.len() > 1 {
                assert(b.take(rest - 1) =~= shorter.take(rest - 1));
                assert(all.drop_last() =~= before.drop_last());
            }
        }
    }
}

/// A text is cut at its separators and nowhere else: the pieces hold none, and joined with
/// separators they are the text.
pub proof fn texts_are_cut_at_their_separators(b: &[u8], separator: u8, parts: Vec<Vec<u8>>)
    requires
        call_ensures(split, (b, separator), parts),
    ensures
        parts@.len() > 0,
        joined(parts@, separator) == b@,
        forall|i: int| 0 <= i < parts@.len() ==> !(#[trigger] parts@[i])@.contains(separator),
{
    fields_exist(b@, separator);
    assert(views(parts@).len() == parts@.len());
    assert forall|i: int| 0 <= i < parts@.len() implies (#[trigger] parts@[i])@ == fields(
        b@,
        separator,
    )[i] by {
        assert(views(parts@)[i] == parts@[i]@);
    }
    fields_join(b@, separator, parts@);
}

/// A numeral, with or without a plus sign before it, is read as its number where that fits, and
/// with a minus sign as the number below zero; a byte that is neither makes it no number.
pub proof fn numerals_are_read_where_they_fit(
    b: &[u8],
    unsigned: Option<u8>,
    signed: Option<i32>,
    digits: Seq<char>,
    sign: Seq<char>,
)
    requires
        call_ensures(parse_u8, (b,), unsigned),
        call_ensures(parse_i32, (b,), signed),
        digits.len() > 0,
        forall|i: int| 0 <= i < digits.len() ==> '0' <= #[trigger] digits[i] <= '9',
        sign == Seq::<char>::empty() || sign == seq!['+'] || sign == seq!['-'],
        b@ == ascii(sign + digits),
    ensures
        unsigned == (if sign != seq!['-'] && number_in(digits) <= 255 {
            Some(number_in(digits) as u8)
        } else {
            None
        }),
        sign != seq!['-'] ==> signed == (if number_in(digits) <= 0x7FFF_FFFF {
            Some(number_in(digits) as i32)
        } else {
            None
        }),
        sign == seq!['-'] ==> signed == (if number_in(digits) <= 0x8000_0000 {
            Some((-number_in(digits)) as i32)
        } else {
            None
        }),
{
    numerals_in_bytes(digits);
    assert('0' <= digits[0] <= '9');
    if sign == Seq::<char>::empty() {
        assert(sign + digits =~= digits);
        assert(48 <= ascii(digits)[0] <= 57);
        assert(sign != seq!['-']) by {
            assert(seq!['-'].len() == 1);
        }
    } else {
        assert(b@.drop_first() =~= ascii(digits));
        assert(b@[0] == sign[0] as u8);
        if sign == seq!['+'] {
            assert(sign[0] == '+');
        } else {
            assert(sign[0] == '-');
            assert(b@[0] == 45);
            assert(!digit_bytes(b@)) by {
                assert(!(48 <= b@[0] <= 57));
            }
        }
    }
}

/// A text with a byte that is no digit behind the sign, or without digits, is no number.
pub proof fn other_texts_are_not_read(
    b: &[u8],
    unsigned: Option<u8>,
    signed: Option<i32>,
    i: int,
)
    requires
        call_ensures(parse_u8, (b,), unsigned),
        call_ensures(parse_i32, (b,), signed),
        b@.len() == 0 || (b@.len() == 1 && !(48 <= b@[0] <= 57)) || (1 <= i < b@.len() && !(48
            <= b@[i] <= 57)),
    ensures
        unsigned is None,
        signed is None,
{
    if b@.len() > 0 {
        let rest = b@.drop_first();
        if b@.len() > 1 {
            assert(rest[i - 1] == b@[i]);
        }
    }
}

} // verus!
