//! Whole numbers as decimal text.

use vstd::prelude::*;
use crate::text::{from_chars, to_chars};

verus! {

/// Whether `c` is one of the digits `0` to `9`.
pub open spec fn is_digit(c: char) -> bool {
    0x30 <= c as u32 <= 0x39
}

/// The number that a digit stands for.
pub open spec fn digit_of(c: char) -> int {
    c as u32 as int - 0x30
}

/// Whether `s` holds digits only.
pub open spec fn all_digits(s: Seq<char>) -> bool {
    forall|i: int| 0 <= i < s.len() ==> is_digit(#[trigger] s[i])
}

/// The number that a run of digits stands for; leading zeros count for
/// nothing.
pub open spec fn decimal_value(s: Seq<char>) -> int
    decreases s.len(),
{
    if s.len() == 0 {
        0
    } else {
        decimal_value(s.drop_last()) * 10 + digit_of(s.last())
    }
}

/// The whole number that `s` spells, if it spells one that fits 64 bits:
/// an optional sign, then at least one digit and nothing else.
pub open spec fn integer_of(s: Seq<char>) -> Option<int> {
    if s.len() == 0 {
        None
    } else if s[0] == '-' {
        let digits = s.drop_first();
        if digits.len() > 0 && all_digits(digits) && -decimal_value(digits) >= i64::MIN {
            Some(-decimal_value(digits))
        } else {
            None
        }
    } else {
        let digits = if s[0] == '+' {
            s.drop_first()
        } else {
            s
        };
        if digits.len() > 0 && all_digits(digits) && decimal_value(digits) <= i64::MAX {
            Some(decimal_value(digits))
        } else {
            None
        }
    }
}

/// The digit that stands for `d`.
pub open spec fn digit_char(d: int) -> char {
    if d == 0 {
        '0'
    } else if d == 1 {
        '1'
    } else if d == 2 {
        '2'
    } else if d == 3 {
        '3'
    } else if d == 4 {
        '4'
    } else if d == 5 {
        '5'
    } else if d == 6 {
        '6'
    } else if d == 7 {
        '7'
    } else if d == 8 {
        '8'
    } else {
        '9'
    }
}

/// The digits of `n`, without leading zeros.
pub open spec fn decimal_text(n: nat) -> Seq<char>
    decreases n,
{
    if n < 10 {
        seq![digit_char(n as int)]
    } else {
        decimal_text(n / 10).push(digit_char((n % 10) as int))
    }
}

/// A whole number as text: a minus sign where it is negative, then its
/// digits.
pub open spec fn integer_text(v: int) -> Seq<char> {
    if v < 0 {
        seq!['-'] + decimal_text((-v) as nat)
    } else {
        decimal_text(v as nat)
    }
}

/// A run of digits stands for no less than any of its beginnings.
pub proof fn lemma_decimal_prefix(s: Seq<char>, k: int)
    requires
        all_digits(s),
        0 <= k <= s.len(),
    ensures
        0 <= decimal_value(s.take(k)) <= decimal_value(s),
    decreases s.len(),
{
    if k == s.len() {
        assert(s.take(k) == s);
        if s.len() > 0 {
            assert(all_digits(s.drop_last()));
            lemma_decimal_prefix(s.drop_last(), k - 1);
            assert(s.drop_last().take(k - 1) == s.drop_last());
            assert(is_digit(s.last()));
        }
    } else {
        assert(all_digits(s.drop_last()));
        assert(s.take(k) == s.drop_last().take(k));
        lemma_decimal_prefix(s.drop_last(), k);
        lemma_decimal_prefix(s.drop_last(), s.len() - 1);
        assert(is_digit(s.last()));
    }
}

/// The digits written from a count are digits, at least one of them, and
/// stand for that count.
pub proof fn lemma_decimal_text(n: nat)
    ensures
        decimal_text(n).len() > 0,
        all_digits(decimal_text(n)),
        decimal_value(decimal_text(n)) == n,
    decreases n,
{
    let text = decimal_text(n);
    if n < 10 {
        assert(text.drop_last() == Seq::<char>::empty());
        assert(decimal_value(text.drop_last()) == 0);
        assert(text.last() == digit_char(n as int));
    } else {
        lemma_decimal_text(n / 10);
        let head = decimal_text(n / 10);
        assert(text.drop_last() == head);
        assert(text.last() == digit_char((n % 10) as int));
        assert forall|i: int| 0 <= i < text.len() implies is_digit(#[trigger] text[i]) by {
            if i < head.len() {
                assert(text[i] == head[i]);
            }
        }
    }
}

/// Text written from a whole number of 64 bits reads back as that number.
pub proof fn lemma_integer_round_trip(v: int)
    requires
        i64::MIN <= v <= i64::MAX,
    ensures
        integer_of(integer_text(v)) == Some(v),
{
    let text = integer_text(v);
    if v < 0 {
        lemma_decimal_text((-v) as nat);
        assert(text[0] == '-');
        assert(text.drop_first() == decimal_text((-v) as nat));
    } else {
        lemma_decimal_text(v as nat);
        assert(is_digit(text[0]));
    }
}

/// Reads a whole number of 64 bits from decimal text.
pub fn parse_i64(text: &str) -> (r: Option<i64>)
    ensures
        match integer_of(text@) {
            Some(v) => r == Some(v as i64) && i64::MIN <= v <= i64::MAX,
            None => r is None,
        },
{
    let s = to_chars(text);
    if s.len() == 0 {
        return None;
    }
    let negative = s[0] == '-';
    let start: usize = if s[0] == '-' || s[0] == '+' {
        1
    } else {
        0
    };
    let ghost digits = s@.subrange(start as int, s@.len() as int);
    proof {
        if start == 1 {
            assert(digits == s@.drop_first());
        } else {
            assert(digits == s@);
        }
    }
    if start >= s.len() {
        return None;
    }
    let limit: u64 = if negative {
        9223372036854775808
    } else {
        9223372036854775807
    };
    let mut magnitude: u64 = 0;
    let mut i: usize = start;
    assert(digits.take(0) == Seq::<char>::empty());
    while i < s.len()
        invariant
            start <= i <= s.len(),
            digits == s@.subrange(start as int, s@.len() as int),
            all_digits(digits.take(i - start)),
            magnitude == decimal_value(digits.take(i - start)),
            magnitude <= limit,
            limit == (if negative { 9223372036854775808u64 } else { 9223372036854775807u64 }),
            s@ == text@,
            s@.len() > 0,
            negative == (s@[0] == '-'),
            digits == (if s@[0] == '-' || s@[0] == '+' { s@.drop_first() } else { s@ }),
        decreases s.len() - i,
    {
        let n: u32 = s[i] as u32;
        if n < 0x30 || n > 0x39 {
            assert(!is_digit(digits[i - start]));
            return None;
        }
        let d: u64 = (n - 0x30) as u64;
        proof {
            let longer = digits.take(i - start + 1);
            assert(longer.drop_last() == digits.take(i - start));
            assert(longer.last() == s@[i as int]);
            assert(all_digits(longer)) by {
                assert forall|k: int| 0 <= k < longer.len() implies is_digit(
                    #[trigger] longer[k],
                ) by {
                    if k < longer.len() - 1 {
                        assert(longer[k] == digits.take(i - start)[k]);
                    }
                }
            }
            assert(decimal_value(longer) == magnitude * 10 + d);
        }
        if magnitude > (limit - d) / 10 {
            proof {
                if all_digits(digits) {
                    lemma_decimal_prefix(digits, i - start + 1);
                }
            }
            return None;
        }
        magnitude = magnitude * 10 + d;
        i += 1;
    }
    assert(digits.take(digits.len() as int) == digits);
    if negative {
        if magnitude == 9223372036854775808 {
            Some(i64::MIN)
        } else {
            Some(-(magnitude as i64))
        }
    } else {
        Some(magnitude as i64)
    }
}

fn digit(d: u64) -> (c: char)
    requires
        d < 10,
    ensures
        c == digit_char(d as int),
{
    if d == 0 {
        '0'
    } else if d == 1 {
        '1'
    } else if d == 2 {
        '2'
    } else if d == 3 {
        '3'
    } else if d == 4 {
        '4'
    } else if d == 5 {
        '5'
    } else if d == 6 {
        '6'
    } else if d == 7 {
        '7'
    } else if d == 8 {
        '8'
    } else {
        '9'
    }
}

/// The digits of `n`, last digit first, pushed behind `out`.
fn push_digits(out: &mut Vec<char>, n: u64)
    ensures
        final(out)@ == old(out)@ + decimal_text(n as nat),
    decreases n,
{
    if n < 10 {
        out.push(digit(n));
        assert(out@ =~= old(out)@ + decimal_text(n as nat));
    } else {
        push_digits(out, n / 10);
        out.push(digit(n % 10));
        assert(out@ =~= old(out)@ + decimal_text(n as nat));
    }
}

/// Writes a count as decimal text.
pub fn u64_to_string(n: u64) -> (r: String)
    ensures
        r@ == decimal_text(n as nat),
{
    let mut out: Vec<char> = Vec::new();
    push_digits(&mut out, n);
    assert(out@ == Seq::<char>::empty() + decimal_text(n as nat));
    from_chars(&out)
}

/// Writes a whole number of 64 bits as decimal text.
pub fn i64_to_string(v: i64) -> (r: String)
    ensures
        r@ == integer_text(v as int),
{
    let mut out: Vec<char> = Vec::new();
    if v < 0 {
        out.push('-');
        let magnitude: u64 = if v == i64::MIN {
            9223372036854775808
        } else {
            (-v) as u64
        };
        push_digits(&mut out, magnitude);
    } else {
        push_digits(&mut out, v as u64);
        assert(out@ == Seq::<char>::empty() + decimal_text(v as nat));
    }
    from_chars(&out)
}

} // verus!
