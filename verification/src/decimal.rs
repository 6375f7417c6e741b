//! Decimal numbers with an explicit scale, and the calls into `rust_decimal` that make them.

use std::str::FromStr;

use rust_decimal::Decimal;
use vstd::arithmetic::power::pow;
use vstd::prelude::*;

use crate::text::{all_digits, digits_of, digits_value, padded_digits};

verus! {

/// One above the largest mantissa that a decimal holds.
pub const MANTISSA_LIMIT: i128 = 0x1_0000_0000_0000_0000_0000_0000;

/// The largest scale that a decimal holds.
pub const MAX_SCALE: u32 = 28;

/// The number `mantissa / 10^scale`.
#[derive(Debug, Clone, Copy, PartialEq, Eq, Structural)]
pub struct ExactDecimal {
    /// The digits, as a signed integer.
    pub mantissa: i128,
    /// How many of the digits stand after the point.
    pub scale: u32,
}

impl ExactDecimal {
    /// The mantissa has at most 96 bits and the scale is at most 28.
    pub open spec fn fits(&self) -> bool {
        decimal_fits(self.mantissa as int, self.scale as nat)
    }
}

/// A mantissa and a scale that a decimal can hold.
pub open spec fn decimal_fits(mantissa: int, scale: nat) -> bool {
    -MANTISSA_LIMIT < mantissa < MANTISSA_LIMIT && scale <= MAX_SCALE
}

/// `text` is an optional minus sign, the digits `whole` and, unless `fraction` is empty, a point
/// and the digits `fraction`.
pub open spec fn plain_decimal(
    text: Seq<char>,
    negative: bool,
    whole: Seq<char>,
    fraction: Seq<char>,
) -> bool {
    &&& whole.len() > 0
    &&& all_digits(whole)
    &&& all_digits(fraction)
    &&& text == (if negative {
        seq!['-']
    } else {
        Seq::empty()
    }) + whole + (if fraction.len() > 0 {
        seq!['.'] + fraction
    } else {
        Seq::empty()
    })
}

/// The mantissa of a plain decimal text.
pub open spec fn plain_mantissa(negative: bool, whole: Seq<char>, fraction: Seq<char>) -> int {
    if negative {
        -digits_value(whole + fraction)
    } else {
        digits_value(whole + fraction)
    }
}

/// `text` is a plain decimal text of these parts, and its digits fit a decimal.
pub open spec fn readable(
    text: Seq<char>,
    negative: bool,
    whole: Seq<char>,
    fraction: Seq<char>,
) -> bool {
    plain_decimal(text, negative, whole, fraction) && decimal_fits(
        plain_mantissa(negative, whole, fraction),
        fraction.len(),
    )
}

/// `text` is a plain decimal text.
pub open spec fn plain(text: Seq<char>) -> bool {
    exists|negative: bool, whole: Seq<char>, fraction: Seq<char>| #[trigger]
        plain_decimal(text, negative, whole, fraction)
}

/// The decimal that a plain decimal text denotes digit for digit, where it fits.
pub open spec fn plain_value(text: Seq<char>) -> Option<ExactDecimal> {
    if exists|negative: bool, whole: Seq<char>, fraction: Seq<char>| #[trigger]
        readable(text, negative, whole, fraction) {
        let (negative, whole, fraction) = choose|
            negative: bool,
            whole: Seq<char>,
            fraction: Seq<char>,
        | #[trigger]
            readable(text, negative, whole, fraction);
        Some(
            ExactDecimal {
                mantissa: plain_mantissa(negative, whole, fraction) as i128,
                scale: fraction.len() as u32,
            },
        )
    } else {
        None
    }
}

/// `text` is a plain decimal text with more before the point than a decimal holds.
pub open spec fn overlong(text: Seq<char>) -> bool {
    exists|negative: bool, whole: Seq<char>, fraction: Seq<char>| #[trigger]
        plain_decimal(text, negative, whole, fraction) && digits_value(whole) >= MANTISSA_LIMIT
}

/// Whether the decimal of `text` is told by its digits: it is a plain decimal text whose digits
/// fit, or one with more before the point than a decimal holds, which denotes none.
pub open spec fn told_by_digits(text: Seq<char>) -> bool {
    plain_value(text) is Some || overlong(text)
}

/// More digits make no smaller number.
proof fn digits_only_add(whole: Seq<char>, fraction: Seq<char>)
    requires
        all_digits(whole),
        all_digits(fraction),
    ensures
        0 <= digits_value(whole) <= digits_value(whole + fraction),
    decreases whole.len() + fraction.len(),
{
    if fraction.len() > 0 {
        let all = whole + fraction;
        assert(all.drop_last() =~= whole + fraction.drop_last());
        assert(all.last() == fraction[fraction.len() - 1]);
        digits_only_add(whole, fraction.drop_last());
    } else {
        assert(whole + fraction =~= whole);
        if whole.len() > 0 {
            assert('0' <= whole[whole.len() - 1] <= '9');
            assert(whole.drop_last() + Seq::empty() =~= whole.drop_last());
            digits_only_add(whole.drop_last(), Seq::empty());
        }
    }
}

/// A plain decimal text has its parts in one way only.
proof fn plain_parts_are_unique(
    text: Seq<char>,
    negative: bool,
    whole: Seq<char>,
    fraction: Seq<char>,
    other_negative: bool,
    other_whole: Seq<char>,
    other_fraction: Seq<char>,
)
    requires
        plain_decimal(text, negative, whole, fraction),
        plain_decimal(text, other_negative, other_whole, other_fraction),
    ensures
        negative == other_negative,
        whole == other_whole,
        fraction == other_fraction,
{
    let start: int = if negative {
        1
    } else {
        0
    };
    assert('0' <= whole[0] <= '9' && '0' <= other_whole[0] <= '9');
    if negative {
        assert(text[0] == '-');
        assert(other_negative || text[0] == other_whole[0]);
    } else {
        assert(text[0] == whole[0]);
    }
    assert(negative == other_negative);
    let point = start + whole.len();
    let other_point = start + other_whole.len();
    assert forall|i: int| start <= i < point implies text[i] != '.' by {
        assert(text[i] == whole[i - start]);
    }
    assert forall|i: int| start <= i < other_point implies text[i] != '.' by {
        assert(text[i] == other_whole[i - start]);
    }
    if fraction.len() > 0 {
        assert(text[point as int] == '.');
    }
    if other_fraction.len() > 0 {
        assert(text[other_point as int] == '.');
    }
    assert(point == other_point);
    assert(whole =~= text.subrange(start, point as int));
    assert(other_whole =~= text.subrange(start, point as int));
    if fraction.len() > 0 {
        assert(fraction =~= text.skip(point + 1));
    } else {
        assert(fraction =~= Seq::empty());
    }
    if other_fraction.len() > 0 {
        assert(other_fraction =~= text.skip(point + 1));
    } else {
        assert(other_fraction =~= Seq::empty());
    }
}

/// A plain decimal text denotes the number that its digits make, with as many digits after the
/// point as it is written with.
pub proof fn plain_texts_denote_their_digits(
    text: Seq<char>,
    negative: bool,
    whole: Seq<char>,
    fraction: Seq<char>,
)
    requires
        plain_decimal(text, negative, whole, fraction),
    ensures
        plain_value(text) == (if decimal_fits(
            plain_mantissa(negative, whole, fraction),
            fraction.len(),
        ) {
            Some(
                ExactDecimal {
                    mantissa: plain_mantissa(negative, whole, fraction) as i128,
                    scale: fraction.len() as u32,
                },
            )
        } else {
            None
        }),
{
    if decimal_fits(plain_mantissa(negative, whole, fraction), fraction.len()) {
        assert(readable(text, negative, whole, fraction));
    }
    if exists|n: bool, w: Seq<char>, f: Seq<char>| #[trigger] readable(text, n, w, f) {
        let (n, w, f) = choose|n: bool, w: Seq<char>, f: Seq<char>| #[trigger]
            readable(text, n, w, f);
        plain_parts_are_unique(text, negative, whole, fraction, n, w, f);
    }
}

/// The decimal that `Decimal::from_str` reads from a text; `None` where it fails.
pub uninterp spec fn parsed_decimal(text: Seq<char>) -> Option<ExactDecimal>;

/// The decimal that `Decimal::from_str_exact` reads from a text; `None` where it fails.
pub uninterp spec fn parsed_exact_decimal(text: Seq<char>) -> Option<ExactDecimal>;

/// The product that `Decimal::checked_mul` gives of `mantissa / 10^scale` and an integer; `None`
/// where it overflows.
pub uninterp spec fn decimal_product(
    mantissa: int,
    scale: nat,
    factor: u32,
) -> Option<ExactDecimal>;

/// Reads a decimal, rounding what exceeds its precision.
///
/// Calls `Decimal::from_str`, which also takes a sign, underscores and an exponent. The result is
/// named; what is claimed of it is that it fits a decimal, that a plain decimal text whose digits
/// fit is read exactly, digit for digit, and that one with too many digits before the point is
/// refused.
#[verifier::external_body]
fn decimal_from_text(text: &str) -> (r: Option<ExactDecimal>)
    ensures
        r == parsed_decimal(text@),
        r matches Some(d) ==> d.fits(),
        forall|negative: bool, whole: Seq<char>, fraction: Seq<char>|
            #[trigger] plain_decimal(text@, negative, whole, fraction) && decimal_fits(
                plain_mantissa(negative, whole, fraction),
                fraction.len(),
            ) ==> (match r {
                Some(d) => d.mantissa == plain_mantissa(negative, whole, fraction) && d.scale
                    == fraction.len(),
                None => false,
            }),
        overlong(text@) ==> r is None,
{
    match Decimal::from_str(text) {
        Ok(d) => Some(ExactDecimal { mantissa: d.mantissa(), scale: d.scale() }),
        Err(_) => None,
    }
}

/// Reads a decimal without rounding.
///
/// Calls `Decimal::from_str_exact`. The result is named; what is claimed of it is that it fits a
/// decimal, and that a plain decimal text is read exactly where its digits fit and is refused
/// where they do not.
#[verifier::external_body]
pub(crate) fn exact_decimal_from_text(text: &str) -> (r: Option<ExactDecimal>)
    ensures
        r == parsed_exact_decimal(text@),
        r matches Some(d) ==> d.fits(),
        forall|negative: bool, whole: Seq<char>, fraction: Seq<char>|
            #[trigger] plain_decimal(text@, negative, whole, fraction) ==> (match r {
                Some(d) => d.mantissa == plain_mantissa(negative, whole, fraction) && d.scale
                    == fraction.len(),
                None => !decimal_fits(plain_mantissa(negative, whole, fraction), fraction.len()),
            }),
{
    match Decimal::from_str_exact(text) {
        Ok(d) => Some(ExactDecimal { mantissa: d.mantissa(), scale: d.scale() }),
        Err(_) => None,
    }
}

/// Reads a decimal; one that is told by the digits of its text is read digit for digit.
pub(crate) fn exactly_read(text: &str) -> (r: Option<ExactDecimal>)
    ensures
        r == parsed_decimal(text@),
        r matches Some(d) ==> d.fits(),
        told_by_digits(text@) ==> r == plain_value(text@),
{
    let read = decimal_from_text(text);
    proof {
        if overlong(text@) {
            let (negative, whole, fraction) = choose|
                negative: bool,
                whole: Seq<char>,
                fraction: Seq<char>,
            | #[trigger]
                plain_decimal(text@, negative, whole, fraction) && digits_value(whole)
                    >= MANTISSA_LIMIT;
            digits_only_add(whole, fraction);
            plain_texts_denote_their_digits(text@, negative, whole, fraction);
        }
        if plain_value(text@) is Some {
            let (negative, whole, fraction) = choose|
                negative: bool,
                whole: Seq<char>,
                fraction: Seq<char>,
            | #[trigger]
                readable(text@, negative, whole, fraction);
            assert(plain_decimal(text@, negative, whole, fraction));
        }
    }
    read
}

/// Multiplies a decimal by an integer.
///
/// Calls `Decimal::checked_mul`. The result is named; what is claimed of it is that it fits a
/// decimal, that a product with zero is zero, and that the product is exact where its digits fit.
#[verifier::external_body]
pub(crate) fn multiplied(d: ExactDecimal, factor: u32) -> (r: Option<ExactDecimal>)
    requires
        d.fits(),
    ensures
        r == decimal_product(d.mantissa as int, d.scale as nat, factor),
        r matches Some(p) ==> p.fits(),
        d.mantissa == 0 || factor == 0 ==> r == Some(ExactDecimal { mantissa: 0, scale: 0 }),
        d.mantissa != 0 && factor != 0 && decimal_fits(d.mantissa * factor, d.scale as nat) ==> r
            == Some(ExactDecimal { mantissa: (d.mantissa * factor) as i128, scale: d.scale }),
{
    match Decimal::from_i128_with_scale(d.mantissa, d.scale).checked_mul(Decimal::from(factor)) {
        Some(p) => Some(ExactDecimal { mantissa: p.mantissa(), scale: p.scale() }),
        None => None,
    }
}

/// A mantissa and a scale without trailing zeros after the point.
pub open spec fn stripped(mantissa: int, scale: nat) -> (int, nat)
    decreases scale,
{
    if mantissa == 0 {
        (0, 0)
    } else if scale > 0 && mantissa % 10 == 0 {
        stripped(mantissa / 10, (scale - 1) as nat)
    } else {
        (mantissa, scale)
    }
}

/// The decimal rendering of `mantissa / 10^scale` with `scale` digits after the point.
pub open spec fn decimal_text(mantissa: int, scale: nat) -> Seq<char> {
    let magnitude: nat = if mantissa < 0 {
        (-mantissa) as nat
    } else {
        mantissa as nat
    };
    let sign = if mantissa < 0 {
        seq!['-']
    } else {
        Seq::empty()
    };
    let whole = digits_of((magnitude as int / pow(10, scale)) as nat);
    if scale == 0 {
        sign + whole
    } else {
        sign + whole + seq!['.'] + padded_digits(magnitude, scale)
    }
}

/// The decimal rendering of a decimal without its trailing zeros.
pub open spec fn normalized_text_spec(mantissa: int, scale: nat) -> Seq<char> {
    decimal_text(stripped(mantissa, scale).0, stripped(mantissa, scale).1)
}

/// Renders a decimal without its trailing zeros.
///
/// Calls `Decimal::normalize` and the `Display` of its result. Claimed is the whole text: the
/// trailing zeros after the point are stripped, and the rest is written with sign, whole part and
/// fraction.
#[verifier::external_body]
pub(crate) fn normalized_text(d: ExactDecimal) -> (r: String)
    requires
        d.fits(),
    ensures
        r@ == normalized_text_spec(d.mantissa as int, d.scale as nat),
{
    Decimal::from_i128_with_scale(d.mantissa, d.scale).normalize().to_string()
}

} // verus!
