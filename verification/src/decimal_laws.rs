//! What a decimal text spells.

use vstd::arithmetic::div_mod::{lemma_div_denominator, lemma_div_pos_is_pos};
use vstd::arithmetic::power::{lemma_pow_positive, pow};
use vstd::prelude::*;

use crate::decimal::{
    normalized_text_spec, plain_decimal, plain_texts_denote_their_digits, plain_value, stripped,
    told_by_digits, ExactDecimal,
};
use crate::text::{digits_of, digits_of_value, digits_value, padded_digits, padded_digits_layout};
use crate::text_laws::{number_in, number_in_is_positional, numeral};

verus! {

/// `text` spells `d` digit for digit: an optional minus sign, digits, and a point with as many
/// digits behind it as the scale says, unless that is none. A decimal has at most 96 bits and 28
/// digits behind the point.
pub open spec fn spells(text: Seq<char>, d: ExactDecimal) -> bool {
    exists|negative: bool, whole: Seq<char>, fraction: Seq<char>| #[trigger]
        spelled_by(text, d, negative, whole, fraction)
}

/// `text` spells `d` with these parts.
pub open spec fn spelled_by(
    text: Seq<char>,
    d: ExactDecimal,
    negative: bool,
    whole: Seq<char>,
    fraction: Seq<char>,
) -> bool {
    let sign = if negative {
        seq!['-']
    } else {
        Seq::empty()
    };
    let digits = number_in(whole + fraction);
    &&& numeral(whole)
    &&& fraction.len() > 0 ==> numeral(fraction)
    &&& text == (if fraction.len() == 0 {
        sign + whole
    } else {
        sign + whole + seq!['.'] + fraction
    })
    &&& d.mantissa == (if negative {
        -digits
    } else {
        digits
    })
    &&& d.scale == fraction.len()
    &&& d.scale <= 28
    &&& -0x1_0000_0000_0000_0000_0000_0000 < d.mantissa < 0x1_0000_0000_0000_0000_0000_0000
}

/// What a text spells is the decimal that it denotes.
pub proof fn spelled_decimals_are_denoted(text: Seq<char>, d: ExactDecimal)
    requires
        spells(text, d),
    ensures
        plain_value(text) == Some(d),
        told_by_digits(text),
        d.fits(),
{
    let (negative, whole, fraction) = choose|
        negative: bool,
        whole: Seq<char>,
        fraction: Seq<char>,
    | #[trigger]
        spelled_by(text, d, negative, whole, fraction);
    number_in_is_positional(whole + fraction);
    assert(text =~= (if negative {
        seq!['-']
    } else {
        Seq::empty()
    }) + whole + (if fraction.len() > 0 {
        seq!['.'] + fraction
    } else {
        Seq::empty()
    }));
    assert(plain_decimal(text, negative, whole, fraction));
    plain_texts_denote_their_digits(text, negative, whole, fraction);
}

/// A text spells one decimal only.
pub proof fn texts_spell_one_decimal(text: Seq<char>, a: ExactDecimal, b: ExactDecimal)
    requires
        spells(text, a),
        spells(text, b),
    ensures
        a == b,
{
    spelled_decimals_are_denoted(text, a);
    spelled_decimals_are_denoted(text, b);
}

/// `text` tells the number `d` in as few digits behind the point as it takes.
pub open spec fn tells(text: Seq<char>, d: ExactDecimal) -> bool {
    exists|e: ExactDecimal| #[trigger] spells(text, e) && shortest_of(e, d)
}

/// `e` is the same number as `d`, without trailing zeros behind the point.
pub open spec fn shortest_of(e: ExactDecimal, d: ExactDecimal) -> bool {
    &&& e.mantissa * pow(10, d.scale as nat) == d.mantissa * pow(10, e.scale as nat)
    &&& e.scale > 0 ==> e.mantissa % 10 != 0
}

proof fn stripping_keeps_the_number(mantissa: int, scale: nat)
    ensures
        ({
            let (m, s) = stripped(mantissa, scale);
            &&& m * pow(10, scale) == mantissa * pow(10, s)
            &&& s <= scale
            &&& s > 0 ==> m % 10 != 0
            &&& mantissa >= 0 ==> 0 <= m <= mantissa
            &&& mantissa <= 0 ==> mantissa <= m <= 0
        }),
    decreases scale,
{
    if mantissa != 0 && scale > 0 && mantissa % 10 == 0 {
        let shorter = (scale - 1) as nat;
        stripping_keeps_the_number(mantissa / 10, shorter);
        let (m, s) = stripped(mantissa, scale);
        let unit = pow(10, shorter);
        let power = pow(10, s);
        assert(pow(10, scale) == 10 * unit) by {
            reveal(pow);
        }
        assert(m * (10 * unit) == 10 * (m * unit)) by (nonlinear_arith);
        let tenth = mantissa / 10;
        assert(mantissa == 10 * tenth);
        assert((10 * tenth) * power == 10 * (tenth * power)) by (nonlinear_arith);
    }
}

proof fn parts_join(n: nat, scale: nat)
    ensures
        digits_value(digits_of((n as int / pow(10, scale)) as nat) + padded_digits(n, scale)) == n,
    decreases scale,
{
    let whole = digits_of((n as int / pow(10, scale)) as nat);
    lemma_pow_positive(10, scale);
    assert(n as int / pow(10, scale) >= 0) by {
        lemma_div_pos_is_pos(n as int, pow(10, scale));
    }
    if scale == 0 {
        assert(pow(10, 0) == 1) by {
            reveal(pow);
        }
        assert(whole + padded_digits(n, 0) =~= whole);
        digits_of_value(n);
    } else {
        let shorter = (scale - 1) as nat;
        lemma_pow_positive(10, shorter);
        assert(pow(10, scale) == 10 * pow(10, shorter)) by {
            reveal(pow);
        }
        lemma_div_denominator(n as int, 10, pow(10, shorter));
        parts_join(n / 10, shorter);
        let all = whole + padded_digits(n, scale);
        assert(all.drop_last() =~= whole + padded_digits(n / 10, shorter));
        assert(all.last() == padded_digits(n, scale).last());
    }
}

/// The text of a decimal without trailing zeros tells the number.
pub(crate) proof fn normalized_texts_tell(d: ExactDecimal)
    requires
        d.fits(),
    ensures
        tells(normalized_text_spec(d.mantissa as int, d.scale as nat), d),
{
    let (mantissa, scale) = stripped(d.mantissa as int, d.scale as nat);
    stripping_keeps_the_number(d.mantissa as int, d.scale as nat);
    let negative = mantissa < 0;
    let magnitude: nat = if negative {
        (-mantissa) as nat
    } else {
        mantissa as nat
    };
    let whole = digits_of((magnitude as int / pow(10, scale)) as nat);
    let fraction = padded_digits(magnitude, scale);
    digits_of_value((magnitude as int / pow(10, scale)) as nat);
    padded_digits_layout(magnitude, scale);
    parts_join(magnitude, scale);
    number_in_is_positional(whole + fraction);
    let e = ExactDecimal { mantissa: mantissa as i128, scale: scale as u32 };
    let text = normalized_text_spec(d.mantissa as int, d.scale as nat);
    if scale == 0 {
        assert(fraction =~= Seq::empty());
    }
    assert(spelled_by(text, e, negative, whole, fraction));
    assert(spells(text, e));
    assert(shortest_of(e, d));
}

} // verus!
