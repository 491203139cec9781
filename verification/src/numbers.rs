//! Numbers read from plain decimal notation into fixed point.

use vstd::prelude::*;
use vstd::string::StringSliceAdditionalSpecFns;

verus! {

/// The largest magnitude that a number read may have, in units of the last
/// place kept.
pub const DECIMAL_LIMIT: i64 = 1_000_000_000_000_000_000;

/// The most places after the point that can be kept.
pub const PLACES_LIMIT: u32 = 9;

/// Whether the byte is a decimal digit.
pub open spec fn is_digit(b: u8) -> bool {
    48 <= b <= 57
}

/// Whether every byte is a decimal digit.
pub open spec fn all_digits(d: Seq<u8>) -> bool {
    forall|i: int| 0 <= i < d.len() ==> is_digit(#[trigger] d[i])
}

/// The number that a run of digits writes.
pub open spec fn digits_value(d: Seq<u8>) -> nat
    decreases d.len(),
{
    if d.len() == 0 {
        0
    } else {
        digits_value(d.drop_last()) * 10 + (d.last() - 48) as nat
    }
}

/// The place of the first point at or after `i`, or the length where there
/// is none.
pub open spec fn dot_from(body: Seq<u8>, i: int) -> int
    decreases body.len() - i,
{
    if i >= body.len() {
        body.len() as int
    } else if body[i] == 46 {
        i
    } else {
        dot_from(body, i + 1)
    }
}

/// The digits before the point.
pub open spec fn whole_part(body: Seq<u8>) -> Seq<u8> {
    body.take(dot_from(body, 0))
}

/// The digits after the point; none where there is no point.
pub open spec fn fraction_part(body: Seq<u8>) -> Seq<u8> {
    if dot_from(body, 0) < body.len() {
        body.skip(dot_from(body, 0) + 1)
    } else {
        Seq::empty()
    }
}

/// The first `places` digits after the point, with zeros for those that
/// are not written.
pub open spec fn kept_fraction(fraction: Seq<u8>, places: nat) -> Seq<u8> {
    Seq::new(
        places,
        |i: int|
            if i < fraction.len() {
                fraction[i]
            } else {
                48u8
            },
    )
}

/// The number that an unsigned text writes, in units of the last of
/// `places` places after the point, further places cut off: digits, then
/// maybe a point and digits, with a digit on at least one side.
pub open spec fn unsigned_value(body: Seq<u8>, places: nat) -> Option<nat> {
    let whole = whole_part(body);
    let fraction = fraction_part(body);
    if whole.len() + fraction.len() >= 1 && all_digits(whole) && all_digits(fraction) {
        Some(digits_value(whole + kept_fraction(fraction, places)))
    } else {
        None
    }
}

/// The number that a text writes: a sign, if any, and an unsigned number.
pub open spec fn decimal_value(text: Seq<u8>, places: nat) -> Option<int> {
    if text.len() > 0 && text[0] == 45 {
        match unsigned_value(text.skip(1), places) {
            Some(v) => Some(-(v as int)),
            None => None,
        }
    } else if text.len() > 0 && text[0] == 43 {
        match unsigned_value(text.skip(1), places) {
            Some(v) => Some(v as int),
            None => None,
        }
    } else {
        match unsigned_value(text, places) {
            Some(v) => Some(v as int),
            None => None,
        }
    }
}

/// The number where it lies within the limit.
pub open spec fn within_limit(v: Option<int>) -> Option<i64> {
    match v {
        Some(x) => if -DECIMAL_LIMIT <= x <= DECIMAL_LIMIT {
            Some(x as i64)
        } else {
            None
        },
        None => None,
    }
}

/// One more digit multiplies by ten and adds the digit.
pub proof fn lemma_digits_push(d: Seq<u8>, b: u8)
    ensures
        digits_value(d.push(b)) == digits_value(d) * 10 + (b - 48) as nat,
{
    assert(d.push(b).drop_last() =~= d);
}

/// Takes one more digit into a number that is capped one above the limit.
fn take_digit(acc: u64, b: u8, Ghost(seen): Ghost<Seq<u8>>) -> (next: u64)
    requires
        is_digit(b),
        acc <= DECIMAL_LIMIT + 1,
        acc <= DECIMAL_LIMIT ==> acc == digits_value(seen),
        acc == DECIMAL_LIMIT + 1 ==> digits_value(seen) > DECIMAL_LIMIT,
    ensures
        next <= DECIMAL_LIMIT + 1,
        next <= DECIMAL_LIMIT ==> next == digits_value(seen.push(b)),
        next == DECIMAL_LIMIT + 1 ==> digits_value(seen.push(b)) > DECIMAL_LIMIT,
{
    proof {
        lemma_digits_push(seen, b);
    }
    let limit: u64 = 1_000_000_000_000_000_000;
    if acc > limit {
        return acc;
    }
    let wide: u128 = (acc as u128) * 10 + ((b - 48) as u128);
    if wide > limit as u128 {
        limit + 1
    } else {
        wide as u64
    }
}

fn unsigned_from(bytes: &[u8], start: usize, places: u32) -> (value: Option<u64>)
    requires
        start <= bytes.len(),
        places <= PLACES_LIMIT,
    ensures
        match value {
            Some(v) => unsigned_value(bytes@.skip(start as int), places as nat) is Some && (v
                <= DECIMAL_LIMIT ==> unsigned_value(bytes@.skip(start as int), places as nat)
                == Some(v as nat)) && v <= DECIMAL_LIMIT + 1 && (v == DECIMAL_LIMIT + 1
                ==> unsigned_value(bytes@.skip(start as int), places as nat).unwrap()
                > DECIMAL_LIMIT),
            None => unsigned_value(bytes@.skip(start as int), places as nat) is None,
        },
{
    let ghost body = bytes@.skip(start as int);
    let n = bytes.len();
    let mut acc: u64 = 0;
    let ghost mut seen: Seq<u8> = Seq::empty();
    let mut i: usize = start;
    while i < n && bytes[i] != 46
        invariant
            start <= i <= n,
            n == bytes.len(),
            body == bytes@.skip(start as int),
            dot_from(body, 0) == dot_from(body, i - start),
            seen == body.take(i - start),
            all_digits(seen),
            acc <= DECIMAL_LIMIT + 1,
            acc <= DECIMAL_LIMIT ==> acc == digits_value(seen),
            acc == DECIMAL_LIMIT + 1 ==> digits_value(seen) > DECIMAL_LIMIT,
        decreases n - i,
    {
        let b = bytes[i];
        if b < 48 || b > 57 {
            proof {
                lemma_dot_after(body, i - start);
                lemma_dot_at_least(body, 0);
                assert(whole_part(body)[i - start] == b);
            }
            return None;
        }
        acc = take_digit(acc, b, Ghost(seen));
        proof {
            seen = seen.push(b);
        }
        i += 1;
    }
    let dot = i;
    let ghost whole = seen;
    let ghost fraction = fraction_part(body);
    // every byte after the point must be a digit
    let mut j: usize = if dot < n {
        dot + 1
    } else {
        n
    };
    let first = j;
    while j < n
        invariant
            first <= j <= n,
            n == bytes.len(),
            body == bytes@.skip(start as int),
            fraction == fraction_part(body),
            fraction == bytes@.skip(first as int),
            all_digits(fraction.take(j - first)),
        decreases n - j,
    {
        let b = bytes[j];
        assert(fraction[j - first] == b);
        if b < 48 || b > 57 {
            return None;
        }
        j += 1;
    }
    assert(fraction.take(n - first) =~= fraction);
    if (dot - start) + (n - first) == 0 {
        return None;
    }
    let mut k: u32 = 0;
    let ghost kept = kept_fraction(fraction, places as nat);
    while k < places
        invariant
            k <= places <= PLACES_LIMIT,
            first <= n,
            n == bytes.len(),
            fraction == bytes@.skip(first as int),
            all_digits(fraction),
            kept == kept_fraction(fraction, places as nat),
            seen == whole + kept.take(k as int),
            acc <= DECIMAL_LIMIT + 1,
            acc <= DECIMAL_LIMIT ==> acc == digits_value(seen),
            acc == DECIMAL_LIMIT + 1 ==> digits_value(seen) > DECIMAL_LIMIT,
        decreases places - k,
    {
        let b: u8 = if (k as usize) < n - first {
            bytes[first + k as usize]
        } else {
            48
        };
        assert(kept[k as int] == b);
        acc = take_digit(acc, b, Ghost(seen));
        proof {
            seen = seen.push(b);
        }
        k += 1;
    }
    assert(kept.take(places as int) =~= kept);
    Some(acc)
}

/// No point stands before the first point.
pub proof fn lemma_dot_after(body: Seq<u8>, i: int)
    requires
        0 <= i < body.len(),
        dot_from(body, 0) == dot_from(body, i),
        body[i] != 46,
    ensures
        i < dot_from(body, 0),
    decreases body.len() - i,
{
    lemma_dot_at_least(body, i + 1);
}

/// The first point at or after `i` stands at or after `i`.
pub proof fn lemma_dot_at_least(body: Seq<u8>, i: int)
    requires
        0 <= i <= body.len(),
    ensures
        i <= dot_from(body, i) <= body.len(),
    decreases body.len() - i,
{
    if i < body.len() && body[i] != 46 {
        lemma_dot_at_least(body, i + 1);
    }
}

/// The number that a text writes in plain decimal notation, in units of the
/// last of `places` places after the point; further places are cut off.
/// None where the text is no such number or the number lies beyond the
/// limit.
pub fn parse_decimal(text: &str, places: u32) -> (value: Option<i64>)
    requires
        places <= PLACES_LIMIT,
    ensures
        value == within_limit(decimal_value(text.spec_bytes(), places as nat)),
{
    let bytes = text.as_bytes();
    let negative = bytes.len() > 0 && bytes[0] == 45;
    let signed = negative || (bytes.len() > 0 && bytes[0] == 43);
    let start: usize = if signed {
        1
    } else {
        0
    };
    assert(bytes@.skip(0) =~= bytes@);
    match unsigned_from(bytes, start, places) {
        Some(v) => {
            if v > 1_000_000_000_000_000_000 {
                None
            } else if negative {
                Some(-(v as i64))
            } else {
                Some(v as i64)
            }
        },
        None => None,
    }
}

} // verus!
