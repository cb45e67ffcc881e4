//! Decimal numerals: writing and reading integers.

use vstd::prelude::*;

use crate::text::to_chars;

verus! {

/// The decimal digit for a value below ten.
pub open spec fn digit(d: nat) -> char {
    if d == 0 {
        '0'
    } else if d == 1 {
        '1'
    } else if d == 2 {
        '2'
    } else if d == 3 {
        '3'
    } else if d == 4 {
        '4'
    } else if d == 5 {
        '5'
    } else if d == 6 {
        '6'
    } else if d == 7 {
        '7'
    } else if d == 8 {
        '8'
    } else {
        '9'
    }
}

/// `n` in decimal, without leading zeros.
pub open spec fn spec_decimal(n: nat) -> Seq<char>
    decreases n,
{
    if n < 10 {
        seq![digit(n)]
    } else {
        spec_decimal(n / 10).push(digit(n % 10))
    }
}

/// `n` in decimal, with a minus sign in front where it is negative.
pub open spec fn spec_signed(n: int) -> Seq<char> {
    if n < 0 {
        "-"@ + spec_decimal((-n) as nat)
    } else {
        spec_decimal(n as nat)
    }
}

/// `s` with zeros in front, up to `width` characters.
pub open spec fn spec_pad(s: Seq<char>, width: nat) -> Seq<char>
    decreases width - s.len(),
{
    if s.len() >= width {
        s
    } else {
        spec_pad(seq!['0'] + s, width)
    }
}

fn digit_char(d: u64) -> (r: char)
    requires
        d < 10,
    ensures
        r == digit(d as nat),
{
    match d {
        0 => '0',
        1 => '1',
        2 => '2',
        3 => '3',
        4 => '4',
        5 => '5',
        6 => '6',
        7 => '7',
        8 => '8',
        _ => '9',
    }
}

pub fn decimal(n: u64) -> (r: String)
    ensures
        r@ == spec_decimal(n as nat),
{
    wide_decimal(n as u128)
}

/// The numeral of a number too large for 64 bits.
pub fn wide_decimal(n: u128) -> (r: String)
    ensures
        r@ == spec_decimal(n as nat),
    decreases n,
{
    if n < 10 {
        let mut out: String = String::new();
        out.push(digit_char(n as u64));
        assert(out@ =~= seq![digit(n as nat)]);
        out
    } else {
        let mut out: String = wide_decimal(n / 10);
        out.push(digit_char((n % 10) as u64));
        out
    }
}

pub fn signed(n: i64) -> (r: String)
    ensures
        r@ == spec_signed(n as int),
{
    if n < 0 {
        let magnitude: u64 = if n == i64::MIN {
            9223372036854775808u64
        } else {
            (-n) as u64
        };
        let mut out: String = "-".to_string();
        out.append(decimal(magnitude).as_str());
        out
    } else {
        decimal(n as u64)
    }
}

pub fn pad(s: String, width: usize) -> (r: String)
    ensures
        r@ == spec_pad(s@, width as nat),
    decreases width - s@.len(),
{
    if s.as_str().unicode_len() >= width {
        s
    } else {
        let mut out: String = String::new();
        out.push('0');
        out.append(s.as_str());
        assert(out@ =~= seq!['0'] + s@);
        pad(out, width)
    }
}

/// The value of a decimal digit.
pub open spec fn digit_value(c: char) -> Option<nat> {
    let n = c as u32;
    if 0x30 <= n <= 0x39 {
        Some((n - 0x30) as nat)
    } else {
        None
    }
}

/// The value of a non-empty run of decimal digits.
pub open spec fn spec_digits(s: Seq<char>) -> Option<nat>
    decreases s.len(),
{
    if s.len() == 0 {
        None
    } else if s.len() == 1 {
        digit_value(s[0])
    } else {
        match (spec_digits(s.drop_last()), digit_value(s.last())) {
            (Some(a), Some(d)) => Some(a * 10 + d),
            _ => None,
        }
    }
}

/// The value of an unsigned numeral: decimal digits, after an optional plus
/// sign, with a value of at most `max`.
pub open spec fn spec_parse(s: Seq<char>, max: nat) -> Option<nat> {
    let body = if s.len() > 0 && s[0] == '+' {
        s.drop_first()
    } else {
        s
    };
    match spec_digits(body) {
        Some(n) if n <= max => Some(n),
        _ => None,
    }
}

proof fn lemma_digits_monotone(s: Seq<char>, n: int)
    requires
        0 < n <= s.len(),
        spec_digits(s) is Some,
    ensures
        spec_digits(s.subrange(0, n)) is Some,
        spec_digits(s.subrange(0, n))->0 <= spec_digits(s)->0,
    decreases s.len(),
{
    if n == s.len() {
        assert(s.subrange(0, n) =~= s);
    } else {
        lemma_digits_monotone(s.drop_last(), n);
        assert(s.drop_last().subrange(0, n) =~= s.subrange(0, n));
    }
}

fn value_of_digit(c: char) -> (r: Option<u64>)
    ensures
        match r {
            Some(d) => d < 10 && digit_value(c) == Some(d as nat),
            None => digit_value(c) is None,
        },
{
    let n: u32 = c as u32;
    if 0x30 <= n && n <= 0x39 {
        Some((n - 0x30) as u64)
    } else {
        None
    }
}

pub fn parse_unsigned(s: &str, max: u64) -> (r: Option<u64>)
    ensures
        match r {
            Some(n) => spec_parse(s@, max as nat) == Some(n as nat),
            None => spec_parse(s@, max as nat) is None,
        },
{
    let v: Vec<char> = to_chars(s);
    let start: usize = if v.len() > 0 && v[0] == '+' {
        1
    } else {
        0
    };
    let ghost body = s@.subrange(start as int, s@.len() as int);
    proof {
        if start == 1 {
            assert(body =~= s@.drop_first());
        } else {
            assert(body =~= s@);
        }
    }
    if start == v.len() {
        return None;
    }
    let mut i: usize = start;
    let mut acc: u64 = 0;
    while i < v.len()
        invariant
            start <= i <= v@.len(),
            acc <= max,
            i == start ==> acc == 0,
            i > start ==> spec_digits(body.subrange(0, i - start)) == Some(acc as nat),
        decreases v@.len() - i,
    {
        let ghost next = body.subrange(0, i + 1 - start);
        proof {
            if i > start {
                assert(next.drop_last() =~= body.subrange(0, i - start));
            }
            assert(next.last() == v@[i as int]);
            if spec_digits(body) is Some {
                lemma_digits_monotone(body, i + 1 - start);
            }
        }
        match value_of_digit(v[i]) {
            None => {
                assert(spec_digits(next) is None);
                return None;
            },
            Some(d) => {
                if acc > max / 10 || d > max - acc * 10 {
                    assert(spec_digits(next) == Some((acc * 10 + d) as nat));
                    assert(acc * 10 + d > max);
                    return None;
                }
                acc = acc * 10 + d;
            },
        }
        i += 1;
    }
    assert(body.subrange(0, i - start) =~= body);
    Some(acc)
}

/// Reading a numeral gives back the number it was written for.
pub proof fn lemma_decimal(n: nat)
    ensures
        spec_decimal(n).len() > 0,
        spec_digits(spec_decimal(n)) == Some(n),
        spec_decimal(n)[0] != '+',
    decreases n,
{
    let s = spec_decimal(n);
    if n >= 10 {
        lemma_decimal(n / 10);
        assert(s.drop_last() =~= spec_decimal(n / 10));
        assert(s.last() == digit(n % 10));
        assert(s[0] == spec_decimal(n / 10)[0]);
    }
}

proof fn lemma_leading_zero(s: Seq<char>)
    requires
        s.len() > 0,
    ensures
        spec_digits(seq!['0'] + s) == spec_digits(s),
    decreases s.len(),
{
    let t = seq!['0'] + s;
    assert(t.drop_last() =~= seq!['0'] + s.drop_last());
    assert(t.last() == s.last());
    if s.len() > 1 {
        lemma_leading_zero(s.drop_last());
    } else {
        assert(t.drop_last() =~= seq!['0']);
        assert(spec_digits(seq!['0']) == Some(0nat));
    }
}

/// Zeros in front of a numeral do not change its value.
pub proof fn lemma_padded(s: Seq<char>, width: nat)
    requires
        s.len() > 0,
        s[0] != '+',
    ensures
        spec_digits(spec_pad(s, width)) == spec_digits(s),
        spec_pad(s, width).len() > 0,
        spec_pad(s, width)[0] != '+',
    decreases width - s.len(),
{
    if s.len() < width {
        lemma_leading_zero(s);
        lemma_padded(seq!['0'] + s, width);
    }
}

/// Reading a numeral with zeros in front gives back the number it was written for.
pub proof fn law_numeral_is_read_back(n: nat, width: nat, max: nat)
    requires
        n <= max,
    ensures
        spec_parse(spec_pad(spec_decimal(n), width), max) == Some(n),
{
    lemma_decimal(n);
    lemma_padded(spec_decimal(n), width);
}

} // verus!
