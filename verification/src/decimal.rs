//! Numbers written in decimal, and texts joined by a separator.

use vstd::prelude::*;
use vstd::string::StringExecFns;

verus! {

/// The character of a decimal digit.
pub open spec fn digit_char(d: int) -> char {
    if d == 0 {
        '0'
    } else if d == 1 {
        '1'
    } else if d == 2 {
        '2'
    } else if d == 3 {
        '3'
    } else if d == 4 {
        '4'
    } else if d == 5 {
        '5'
    } else if d == 6 {
        '6'
    } else if d == 7 {
        '7'
    } else if d == 8 {
        '8'
    } else {
        '9'
    }
}

/// A number written in decimal, without sign or leading zeros.
pub open spec fn decimal_text(n: nat) -> Seq<char>
    decreases n,
{
    if n < 10 {
        seq![digit_char(n as int)]
    } else {
        decimal_text(n / 10).push(digit_char((n % 10) as int))
    }
}

/// The texts joined, with `sep` between each two.
pub open spec fn joined_text(parts: Seq<Seq<char>>, sep: Seq<char>) -> Seq<char>
    decreases parts.len(),
{
    if parts.len() == 0 {
        Seq::empty()
    } else if parts.len() == 1 {
        parts[0]
    } else {
        joined_text(parts.drop_last(), sep) + sep + parts.last()
    }
}

fn digit_str(d: u64) -> (s: &'static str)
    requires
        d < 10,
    ensures
        s@ == seq![digit_char(d as int)],
{
    proof {
        reveal_strlit("0");
        reveal_strlit("1");
        reveal_strlit("2");
        reveal_strlit("3");
        reveal_strlit("4");
        reveal_strlit("5");
        reveal_strlit("6");
        reveal_strlit("7");
        reveal_strlit("8");
        reveal_strlit("9");
    }
    let s = if d == 0 {
        "0"
    } else if d == 1 {
        "1"
    } else if d == 2 {
        "2"
    } else if d == 3 {
        "3"
    } else if d == 4 {
        "4"
    } else if d == 5 {
        "5"
    } else if d == 6 {
        "6"
    } else if d == 7 {
        "7"
    } else if d == 8 {
        "8"
    } else {
        "9"
    };
    s
}

/// Writes a number in decimal at the end of a text.
pub fn push_decimal(out: &mut String, n: u64)
    ensures
        final(out)@ == old(out)@ + decimal_text(n as nat),
    decreases n,
{
    if n >= 10 {
        push_decimal(out, n / 10);
    }
    out.append(digit_str(n % 10));
}

/// A number written in decimal.
pub fn decimal(n: u64) -> (text: String)
    ensures
        text@ == decimal_text(n as nat),
{
    let mut text = String::new();
    push_decimal(&mut text, n);
    text
}

/// The views of a list of texts.
pub open spec fn texts_of(parts: Seq<String>) -> Seq<Seq<char>> {
    Seq::new(parts.len(), |i: int| parts[i]@)
}

/// The texts joined, with `sep` between each two.
pub fn join(parts: &Vec<String>, sep: &str) -> (text: String)
    ensures
        text@ == joined_text(texts_of(parts@), sep@),
{
    let mut text = String::new();
    let mut i: usize = 0;
    let ghost all = texts_of(parts@);
    while i < parts.len()
        invariant
            i <= parts.len(),
            all == texts_of(parts@),
            text@ == joined_text(all.take(i as int), sep@),
        decreases parts.len() - i,
    {
        proof {
            let next = all.take(i + 1);
            assert(next.drop_last() =~= all.take(i as int));
        }
        if i > 0 {
            text.append(sep);
        }
        text.append(parts[i].as_str());
        i += 1;
    }
    assert(all.take(i as int) =~= all);
    text
}

/// A number written in decimal with at least `width` digits, zeros in
/// front where it has fewer.
pub open spec fn padded_text(n: nat, width: nat) -> Seq<char>
    decreases width,
{
    if width <= 1 {
        decimal_text(n)
    } else {
        padded_text(n / 10, (width - 1) as nat).push(digit_char((n % 10) as int))
    }
}

/// Writes a number in decimal with at least `width` digits at the end of a
/// text.
pub fn push_padded(out: &mut String, n: u64, width: u32)
    ensures
        final(out)@ == old(out)@ + padded_text(n as nat, width as nat),
    decreases width,
{
    if width <= 1 {
        push_decimal(out, n);
    } else {
        push_padded(out, n / 10, width - 1);
        out.append(digit_str(n % 10));
    }
}

/// Ten to the power `e`.
pub open spec fn pow10(e: nat) -> nat
    decreases e,
{
    if e == 0 {
        1
    } else {
        10 * pow10((e - 1) as nat)
    }
}

/// Powers of ten grow with the exponent.
pub proof fn lemma_pow10_grows(a: nat, b: nat)
    ensures
        pow10(a) >= 1,
        a >= b ==> pow10(a) >= pow10(b),
    decreases a,
{
    if a > 0 {
        lemma_pow10_grows((a - 1) as nat, b);
    }
}

/// Ten to the eighteenth.
pub proof fn lemma_pow10_18()
    ensures
        pow10(18) == 1_000_000_000_000_000_000,
{
    reveal_with_fuel(pow10, 19);
}

/// A number of units of the last of `places` places after the point,
/// written with a point: a minus sign where it is negative, the whole
/// part, and where places are kept, a point and all of them.
pub open spec fn fixed_text(value: int, places: nat) -> Seq<char> {
    let size = if value < 0 {
        -value
    } else {
        value
    } as nat;
    let sign = if value < 0 {
        seq!['-']
    } else {
        Seq::<char>::empty()
    };
    let whole = decimal_text(size / pow10(places));
    if places == 0 {
        sign + whole
    } else {
        sign + whole + seq!['.'] + padded_text(size % pow10(places), places)
    }
}

fn power_of_ten(places: u32) -> (p: u64)
    requires
        places <= 18,
    ensures
        p == pow10(places as nat),
        p >= 1,
{
    let mut p: u64 = 1;
    let mut k: u32 = 0;
    proof {
        lemma_pow10_18();
        lemma_pow10_grows(18, 0);
    }
    while k < places
        invariant
            k <= places <= 18,
            p == pow10(k as nat),
            p <= pow10(18),
            pow10(18) == 1_000_000_000_000_000_000,
        decreases places - k,
    {
        proof {
            lemma_pow10_grows(18, (k + 1) as nat);
        }
        p = p * 10;
        k += 1;
    }
    proof {
        lemma_pow10_grows(places as nat, 0);
    }
    p
}

/// Writes a fixed-point number with a point at the end of a text.
pub fn push_fixed(out: &mut String, value: i64, places: u32)
    requires
        places <= 18,
    ensures
        final(out)@ == old(out)@ + fixed_text(value as int, places as nat),
{
    let size: u64 = if value < 0 {
        ((-(value as i128)) as u128) as u64
    } else {
        value as u64
    };
    if value < 0 {
        out.append("-");
        proof {
            reveal_strlit("-");
        }
    }
    let unit = power_of_ten(places);
    push_decimal(out, size / unit);
    if places > 0 {
        out.append(".");
        proof {
            reveal_strlit(".");
        }
        push_padded(out, size % unit, places);
    }
}

} // verus!
