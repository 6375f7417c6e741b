//! What the library's texts of numbers say.

use vstd::prelude::*;

use crate::text::{
    chars_of, digits_of, digits_of_value, digits_value, find_char, find_from_bounds, int_text,
    padded_digits, signed_text, text_eq, trim, trimmed_end, trimmed_start, unsigned_text,
    white_space,
};

verus! {

/// Decimal digits and nothing else, at least one of them.
pub open spec fn numeral(text: Seq<char>) -> bool {
    text.len() > 0 && forall|i: int| 0 <= i < text.len() ==> '0' <= #[trigger] text[i] <= '9'
}

/// The number that a numeral stands for, read from the left.
pub open spec fn number_in(text: Seq<char>) -> int {
    text.fold_left(0int, |number: int, digit: char| 10 * number + (digit as int - '0' as int))
}

/// `text` is how `n` is written: a minus sign where it is below zero, and its digits without
/// leading zeros.
pub open spec fn writes(text: Seq<char>, n: int) -> bool {
    if n < 0 {
        text.len() > 0 && text[0] == '-' && writes_digits(text.drop_first(), -n)
    } else {
        writes_digits(text, n)
    }
}

/// `text` is how the digits of `n` are written.
pub open spec fn writes_digits(text: Seq<char>, n: int) -> bool {
    numeral(text) && number_in(text) == n && (text.len() > 1 ==> text[0] != '0')
}

/// The number of a numeral grows tenfold with each digit.
pub proof fn number_in_is_positional(text: Seq<char>)
    ensures
        number_in(text) == digits_value(text),
    decreases text.len(),
{
    reveal_with_fuel(Seq::fold_left, 2);
    if text.len() > 0 {
        number_in_is_positional(text.drop_last());
    }
}

proof fn digits_do_not_start_with_zero(n: nat)
    ensures
        digits_of(n).len() >= 1,
        digits_of(n).len() > 1 ==> digits_of(n)[0] != '0',
        n > 0 ==> digits_of(n)[0] != '0',
    decreases n,
{
    if n >= 10 {
        digits_do_not_start_with_zero(n / 10);
        assert(digits_of(n)[0] == digits_of(n / 10)[0]);
    }
}

/// The rendering of an integer writes it.
pub proof fn renderings_write_their_integers(n: int)
    ensures
        writes(int_text(n), n),
{
    let magnitude: nat = if n < 0 {
        (-n) as nat
    } else {
        n as nat
    };
    digits_of_value(magnitude);
    digits_do_not_start_with_zero(magnitude);
    number_in_is_positional(digits_of(magnitude));
    if n < 0 {
        assert(int_text(n).drop_first() =~= digits_of(magnitude));
    }
}

/// The text of an integer is how it is written: reading the text gives the integer back.
pub proof fn texts_write_their_integers(i: i64, text: String)
    requires
        call_ensures(signed_text, (i,), text),
    ensures
        writes(text@, i as int),
{
    renderings_write_their_integers(i as int);
}

/// Two integers that are written alike are the same.
pub proof fn writing_tells_integers_apart(text: Seq<char>, a: int, b: int)
    requires
        writes(text, a),
        writes(text, b),
    ensures
        a == b,
{
    if a < 0 || b < 0 {
        assert(text[0] == '-');
        assert(!('0' <= text[0] <= '9'));
    }
}

proof fn digits_of_a_number_are_unique(a: Seq<char>, b: Seq<char>)
    requires
        numeral(a) && numeral(b),
        a.len() > 1 ==> a[0] != '0',
        b.len() > 1 ==> b[0] != '0',
        number_in(a) == number_in(b),
    ensures
        a == b,
    decreases a.len(),
{
    number_in_is_positional(a);
    number_in_is_positional(b);
    let x = a.drop_last();
    let y = b.drop_last();
    assert('0' <= a[a.len() - 1] <= '9' && '0' <= b[b.len() - 1] <= '9');
    if a.len() > 1 {
        leading_digits_count(x);
    }
    if b.len() > 1 {
        leading_digits_count(y);
    }
    assert(a =~= x.push(a.last()));
    assert(b =~= y.push(b.last()));
    number_in_is_positional(x);
    number_in_is_positional(y);
    if a.len() > 1 && b.len() > 1 {
        digits_of_a_number_are_unique(x, y);
    } else if a.len() == 1 && b.len() == 1 {
        assert(x =~= y);
    }
}

proof fn leading_digits_count(a: Seq<char>)
    requires
        numeral(a),
        a[0] != '0',
    ensures
        number_in(a) > 0,
    decreases a.len(),
{
    number_in_is_positional(a);
    assert('0' <= a[a.len() - 1] <= '9' && '0' <= a[0] <= '9');
    if a.len() > 1 {
        leading_digits_count(a.drop_last());
        number_in_is_positional(a.drop_last());
    } else {
        assert(a.drop_last() =~= Seq::empty());
        assert(digits_value(a.drop_last()) == 0);
    }
}

/// An integer is written in one way only.
pub proof fn writing_is_unique(a: Seq<char>, b: Seq<char>, n: int)
    requires
        writes(a, n),
        writes(b, n),
    ensures
        a == b,
{
    if n < 0 {
        digits_of_a_number_are_unique(a.drop_first(), b.drop_first());
        assert(a =~= seq!['-'] + a.drop_first());
        assert(b =~= seq!['-'] + b.drop_first());
    } else {
        digits_of_a_number_are_unique(a, b);
    }
}

/// The text of an unsigned integer is how it is written.
pub proof fn texts_write_their_unsigned_integers(n: u128, text: String)
    requires
        call_ensures(unsigned_text, (n,), text),
    ensures
        writes(text@, n as int),
{
    digits_of_value(n as nat);
    digits_do_not_start_with_zero(n as nat);
    number_in_is_positional(digits_of(n as nat));
}

/// The characters of a text are told in their order, two texts are the same where these are, and a
/// character is found at the first place from the start on that holds it, which is the end where
/// none does.
pub proof fn characters_tell_texts(
    text: &str,
    chars: Vec<char>,
    other: &str,
    same: bool,
    c: char,
    start: usize,
    place: usize,
)
    requires
        start <= chars@.len(),
        call_ensures(chars_of, (text,), chars),
        call_ensures(text_eq, (text, other), same),
        call_ensures(find_char, (&chars, c, start), place),
    ensures
        chars@.len() == text@.len(),
        forall|i: int| 0 <= i < text@.len() ==> #[trigger] chars@[i] == text@[i],
        same <==> text@ == other@,
        start <= place <= text@.len(),
        forall|i: int| start <= i < place ==> #[trigger] text@[i] != c,
        place < text@.len() ==> text@[place as int] == c,
{
    find_from_bounds(chars@, c, start as int);
}

/// A numeral of a given width is the padded rendering of its number.
pub proof fn numerals_are_padded_renderings(text: Seq<char>, width: nat)
    requires
        text.len() == width,
        forall|i: int| 0 <= i < text.len() ==> '0' <= #[trigger] text[i] <= '9',
    ensures
        number_in(text) >= 0,
        padded_digits(number_in(text) as nat, width) == text,
    decreases width,
{
    number_in_is_positional(text);
    if width == 0 {
        assert(text =~= Seq::empty());
    } else {
        let before = text.drop_last();
        numerals_are_padded_renderings(before, (width - 1) as nat);
        number_in_is_positional(before);
        let digit = text.last() as int - 48;
        assert('0' <= text[text.len() - 1] <= '9');
        let n = number_in(text);
        assert(n == 10 * number_in(before) + digit);
        assert((n as nat) / 10 == number_in(before) as nat);
        assert((n as nat) % 10 == digit as nat);
        assert(before.push(text.last()) =~= text);
    }
}

/// White space around a text is taken away, and nothing else: what is left stands in the text with
/// white space only around it, and neither starts nor ends with any.
pub proof fn trimming_takes_white_space_only(text: &str, rest: &str)
    requires
        call_ensures(trim, (text,), rest),
    ensures
        exists|before: Seq<char>, after: Seq<char>|
            {
                &&& text@ == #[trigger] (before + rest@ + after)
                &&& forall|i: int| 0 <= i < before.len() ==> white_space(#[trigger] before[i])
                &&& forall|i: int| 0 <= i < after.len() ==> white_space(#[trigger] after[i])
            },
        rest@.len() > 0 ==> !white_space(rest@[0]) && !white_space(rest@.last()),
{
    let start = trimmed_start(text@);
    let before = starts_are_white(text@);
    let after = ends_are_white(start);
    assert(rest@ == trimmed_end(start));
    assert(text@ =~= before + rest@ + after);
    if rest@.len() > 0 {
        assert(start[0] == rest@[0]);
    }
}

proof fn starts_are_white(s: Seq<char>) -> (before: Seq<char>)
    ensures
        s == before + trimmed_start(s),
        forall|i: int| 0 <= i < before.len() ==> white_space(#[trigger] before[i]),
        trimmed_start(s).len() > 0 ==> !white_space(trimmed_start(s)[0]),
    decreases s.len(),
{
    if s.len() > 0 && white_space(s.first()) {
        let rest = starts_are_white(s.drop_first());
        let before = seq![s.first()] + rest;
        let shorter = s.drop_first();
        assert(shorter == rest + trimmed_start(shorter));
        assert(s =~= seq![s.first()] + shorter);
        assert(before + trimmed_start(shorter) =~= seq![s.first()] + (rest + trimmed_start(
            shorter,
        )));
        before
    } else {
        assert(s =~= Seq::<char>::empty() + s);
        Seq::empty()
    }
}

proof fn ends_are_white(s: Seq<char>) -> (after: Seq<char>)
    ensures
        s == trimmed_end(s) + after,
        forall|i: int| 0 <= i < after.len() ==> white_space(#[trigger] after[i]),
        trimmed_end(s).len() > 0 ==> !white_space(trimmed_end(s).last()),
    decreases s.len(),
{
    if s.len() > 0 && white_space(s.last()) {
        let rest = ends_are_white(s.drop_last());
        let after = rest.push(s.last());
        let shorter = s.drop_last();
        assert(shorter == trimmed_end(shorter) + rest);
        assert(s =~= shorter.push(s.last()));
        assert(trimmed_end(shorter) + after =~= (trimmed_end(shorter) + rest).push(s.last()));
        after
    } else {
        assert(s =~= s + Seq::<char>::empty());
        Seq::empty()
    }
}

/// White space is what Unicode counts as such: of the characters of a keyboard the tab, the line
/// ends and the space, and beyond them the other line ends and the spaces of other widths.
pub proof fn white_space_is_listed(c: char)
    ensures
        white_space(c) <==> {
            ||| c == '\t' || c == '\n' || c == '\u{b}' || c == '\u{c}' || c == '\r' || c == ' '
            ||| c == '\u{85}' || c == '\u{a0}' || c == '\u{1680}'
            ||| '\u{2000}' <= c <= '\u{200a}'
            ||| c == '\u{2028}' || c == '\u{2029}' || c == '\u{202f}' || c == '\u{205f}'
            ||| c == '\u{3000}'
        },
{
}

} // verus!
