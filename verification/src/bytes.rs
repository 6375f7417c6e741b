//! Fields and numbers in ASCII text, byte by byte.

use vstd::prelude::*;

verus! {

/// The fields of a text between its separators; one more than there are separators.
pub open spec fn fields(b: Seq<u8>, separator: u8) -> Seq<Seq<u8>>
    decreases b.len(),
{
    if b.len() == 0 {
        seq![Seq::empty()]
    } else {
        let before = fields(b.drop_last(), separator);
        if b.last() == separator {
            before.push(Seq::empty())
        } else {
            before.drop_last().push(before.last().push(b.last()))
        }
    }
}

/// Every byte is a decimal digit.
pub open spec fn digit_bytes(b: Seq<u8>) -> bool {
    forall|i: int| 0 <= i < b.len() ==> 48 <= #[trigger] b[i] <= 57
}

/// The number that decimal digits denote.
pub open spec fn bytes_value(b: Seq<u8>) -> int
    decreases b.len(),
{
    if b.len() == 0 {
        0
    } else {
        bytes_value(b.drop_last()) * 10 + (b.last() - 48)
    }
}

/// The number that an unsigned decimal text denotes, up to `max`: an optional plus sign and at
/// least one digit.
pub open spec fn unsigned_value(b: Seq<u8>, max: int) -> Option<int> {
    let digits = if b.len() > 0 && b[0] == 43 {
        b.drop_first()
    } else {
        b
    };
    if digits.len() > 0 && digit_bytes(digits) && bytes_value(digits) <= max {
        Some(bytes_value(digits))
    } else {
        None
    }
}

/// The number that a signed decimal text denotes, from `min` to `max`: an optional sign and at
/// least one digit.
pub open spec fn signed_value(b: Seq<u8>, min: int, max: int) -> Option<int> {
    if b.len() > 0 && b[0] == 45 {
        let digits = b.drop_first();
        if digits.len() > 0 && digit_bytes(digits) && -bytes_value(digits) >= min {
            Some(-bytes_value(digits))
        } else {
            None
        }
    } else {
        unsigned_value(b, max)
    }
}

/// The views of byte vectors.
pub open spec fn views(v: Seq<Vec<u8>>) -> Seq<Seq<u8>> {
    v.map_values(|f: Vec<u8>| f@)
}

/// A text has at least one field.
pub proof fn fields_exist(b: Seq<u8>, separator: u8)
    ensures
        fields(b, separator).len() >= 1,
        b.contains(separator) ==> fields(b, separator).len() >= 2,
    decreases b.len(),
{
    if b.len() > 0 {
        fields_exist(b.drop_last(), separator);
        if b.contains(separator) && b.last() != separator {
            let i = choose|i: int| 0 <= i < b.len() && b[i] == separator;
            assert(b.drop_last()[i] == separator);
        }
    }
}

/// A text without separators is its only field.
pub proof fn one_field(b: Seq<u8>, separator: u8)
    requires
        !b.contains(separator),
    ensures
        fields(b, separator) == seq![b],
    decreases b.len(),
{
    if b.len() > 0 {
        let before = b.drop_last();
        assert forall|i: int| 0 <= i < before.len() implies before[i] != separator by {
            assert(b.contains(b[i]));
        }
        assert(b.contains(b[b.len() - 1]));
        one_field(before, separator);
        assert(before.push(b.last()) =~= b);
        assert(fields(b, separator) =~= seq![b]);
    } else {
        assert(b =~= Seq::empty());
    }
}

/// The fields of two texts with a separator between them are those of the first, then those of the
/// second.
pub proof fn joined_fields(a: Seq<u8>, b: Seq<u8>, separator: u8)
    ensures
        fields(a + seq![separator] + b, separator) == fields(a, separator) + fields(b, separator),
    decreases b.len(),
{
    let all = a + seq![separator] + b;
    if b.len() == 0 {
        assert(all.drop_last() =~= a);
        assert(fields(all, separator) =~= fields(a, separator) + fields(b, separator));
    } else {
        assert(all.drop_last() =~= a + seq![separator] + b.drop_last());
        assert(all.last() == b.last());
        joined_fields(a, b.drop_last(), separator);
        fields_exist(b.drop_last(), separator);
        assert(fields(all, separator) =~= fields(a, separator) + fields(b, separator));
    }
}

/// Splits a text into its fields.
pub fn split(b: &[u8], separator: u8) -> (r: Vec<Vec<u8>>)
    ensures
        views(r@) == fields(b@, separator),
{
    let mut done: Vec<Vec<u8>> = Vec::new();
    let mut current: Vec<u8> = Vec::new();
    let mut i: usize = 0;
    assert(views(done@).push(current@) =~= fields(b@.take(0), separator));
    while i < b.len()
        invariant
            i <= b.len(),
            views(done@).push(current@) == fields(b@.take(i as int), separator),
        decreases b.len() - i,
    {
        let ghost before = fields(b@.take(i as int), separator);
        assert(b@.take(i + 1).drop_last() =~= b@.take(i as int));
        assert(b@.take(i + 1).last() == b@[i as int]);
        assert(before.drop_last() =~= views(done@));
        assert(before.last() == current@);
        if b[i] == separator {
            let ghost finished = done@;
            done.push(current);
            assert(views(done@) =~= views(finished).push(current@));
            current = Vec::new();
        } else {
            current.push(b[i]);
        }
        i += 1;
    }
    assert(b@.take(b@.len() as int) =~= b@);
    let ghost finished = done@;
    done.push(current);
    assert(views(done@) =~= views(finished).push(current@));
    done
}

/// Reads the digits from `start` on, as a number up to `max`.
fn read_digits(b: &[u8], start: usize, max: u32) -> (r: Option<u32>)
    requires
        start <= b@.len(),
    ensures
        ({
            let digits = b@.skip(start as int);
            match r {
                Some(n) => digits.len() > 0 && digit_bytes(digits) && bytes_value(digits) == n && n
                    <= max,
                None => digits.len() == 0 || !digit_bytes(digits) || bytes_value(digits) > max,
            }
        }),
{
    let ghost digits = b@.skip(start as int);
    if start == b.len() {
        return None;
    }
    let mut n: u64 = 0;
    let mut i: usize = start;
    let mut too_large = false;
    while i < b.len()
        invariant
            start <= i <= b@.len(),
            digits == b@.skip(start as int),
            forall|j: int| 0 <= j < i - start ==> 48 <= #[trigger] digits[j] <= 57,
            n <= u32::MAX,
            !too_large ==> n == bytes_value(digits.take(i - start)) && n <= max,
            too_large ==> bytes_value(digits.take(i - start)) > max,
        decreases b.len() - i,
    {
        let byte: u8 = b[i];
        assert(digits[i - start] == byte);
        if byte < 48 || byte > 57 {
            assert(!digit_bytes(digits));
            return None;
        }
        assert(digits.take(i - start + 1).drop_last() =~= digits.take(i - start));
        assert(digits.take(i - start + 1).last() == byte);
        if !too_large {
            let next: u64 = n * 10 + (byte - 48) as u64;
            if next > max as u64 {
                too_large = true;
            } else {
                n = next;
            }
        }
        i += 1;
    }
    assert(digits.take(i - start) =~= digits);
    assert(digit_bytes(digits));
    if too_large {
        None
    } else {
        Some(n as u32)
    }
}

/// Reads an unsigned number that fits a byte.
pub fn parse_u8(b: &[u8]) -> (r: Option<u8>)
    ensures
        match r {
            Some(n) => unsigned_value(b@, 255) == Some(n as int),
            None => unsigned_value(b@, 255) is None,
        },
{
    let start: usize = if b.len() > 0 && b[0] == 43 {
        1
    } else {
        0
    };
    proof {
        if start == 1 {
            assert(b@.skip(1) =~= b@.drop_first());
        } else {
            assert(b@.skip(0) =~= b@);
        }
    }
    match read_digits(b, start, 255) {
        Some(n) => Some(n as u8),
        None => None,
    }
}

/// Reads a signed number.
pub fn parse_i32(b: &[u8]) -> (r: Option<i32>)
    ensures
        match r {
            Some(n) => signed_value(b@, i32::MIN as int, i32::MAX as int) == Some(n as int),
            None => signed_value(b@, i32::MIN as int, i32::MAX as int) is None,
        },
{
    if b.len() > 0 && b[0] == 45 {
        assert(b@.skip(1) =~= b@.drop_first());
        match read_digits(b, 1, 0x8000_0000) {
            Some(n) => Some((-(n as i64)) as i32),
            None => None,
        }
    } else {
        let start: usize = if b.len() > 0 && b[0] == 43 {
            1
        } else {
            0
        };
        proof {
            if start == 1 {
                assert(b@.skip(1) =~= b@.drop_first());
            } else {
                assert(b@.skip(0) =~= b@);
            }
        }
        match read_digits(b, start, 0x7FFF_FFFF) {
            Some(n) => Some(n as i32),
            None => None,
        }
    }
}

} // verus!
