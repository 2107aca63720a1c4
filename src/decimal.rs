//! Decimal rendering of integers into text and decimal parsing of wire bytes.
use vstd::prelude::*;
use vstd::string::*;

verus! {

/// The character of a decimal digit.
pub open spec fn digit_char(d: nat) -> char {
    if d == 0 {
        '0'
    } else if d == 1 {
        '1'
    } else if d == 2 {
        '2'
    } else if d == 3 {
        '3'
    } else if d == 4 {
        '4'
    } else if d == 5 {
        '5'
    } else if d == 6 {
        '6'
    } else if d == 7 {
        '7'
    } else if d == 8 {
        '8'
    } else {
        '9'
    }
}

/// The decimal digits of `n`, most significant first, without leading zeros.
pub open spec fn decimal(n: nat) -> Seq<char>
    decreases n,
{
    if n < 10 {
        seq![digit_char(n)]
    } else {
        decimal(n / 10).push(digit_char(n % 10))
    }
}

/// The decimal text of a signed integer: a minus sign before the digits of a
/// negative value.
pub open spec fn signed_decimal(v: int) -> Seq<char> {
    if v < 0 {
        seq!['-'] + decimal((-v) as nat)
    } else {
        decimal(v as nat)
    }
}

fn digit_str(d: u32) -> (r: &'static str)
    requires
        d < 10,
    ensures
        r@ == seq![digit_char(d as nat)],
{
    proof {
        reveal_strlit("0");
        reveal_strlit("1");
        reveal_strlit("2");
        reveal_strlit("3");
        reveal_strlit("4");
        reveal_strlit("5");
        reveal_strlit("6");
        reveal_strlit("7");
        reveal_strlit("8");
        reveal_strlit("9");
    }
    if d == 0 {
        "0"
    } else if d == 1 {
        "1"
    } else if d == 2 {
        "2"
    } else if d == 3 {
        "3"
    } else if d == 4 {
        "4"
    } else if d == 5 {
        "5"
    } else if d == 6 {
        "6"
    } else if d == 7 {
        "7"
    } else if d == 8 {
        "8"
    } else {
        "9"
    }
}

/// Appends the decimal digits of `n` to `s`.
pub fn push_decimal(s: &mut String, n: u32)
    ensures
        final(s)@ == old(s)@ + decimal(n as nat),
    decreases n,
{
    if n >= 10 {
        push_decimal(s, n / 10);
    }
    s.append(digit_str(n % 10));
    proof {
        assert(old(s)@ + decimal(n as nat) =~= final(s)@);
    }
}

/// Appends the decimal text of `v`, with a minus sign when it is negative.
pub fn push_signed_decimal(s: &mut String, v: i32)
    ensures
        final(s)@ == old(s)@ + signed_decimal(v as int),
{
    if v < 0 {
        proof {
            reveal_strlit("-");
        }
        s.append("-");
        let magnitude: u32 = (0i64 - v as i64) as u32;
        push_decimal(s, magnitude);
        proof {
            assert(final(s)@ =~= old(s)@ + signed_decimal(v as int));
        }
    } else {
        push_decimal(s, v as u32);
    }
}


/// A byte that is an ASCII decimal digit.
pub open spec fn is_digit(b: u8) -> bool {
    48 <= b <= 57
}

/// A non-empty run of ASCII decimal digits.
pub open spec fn is_digits(s: Seq<u8>) -> bool {
    s.len() > 0 && forall|i: int| 0 <= i < s.len() ==> is_digit(#[trigger] s[i])
}

/// The value of a run of ASCII decimal digits.
pub open spec fn digits_value(s: Seq<u8>) -> nat
    decreases s.len(),
{
    if s.len() == 0 {
        0
    } else {
        digits_value(s.drop_last()) * 10 + (s.last() - 48) as nat
    }
}

/// The integer that `s` spells: an optional `+` or `-` sign, then at least
/// one decimal digit, nothing else.
pub open spec fn signed_value(s: Seq<u8>) -> Option<int> {
    if s.len() > 0 && (s[0] == 45u8 || s[0] == 43u8) {
        if is_digits(s.drop_first()) {
            if s[0] == 45u8 {
                Some(-digits_value(s.drop_first()))
            } else {
                Some(digits_value(s.drop_first()) as int)
            }
        } else {
            None
        }
    } else if is_digits(s) {
        Some(digits_value(s) as int)
    } else {
        None
    }
}

/// The `i32` that `s` spells, if it spells one in range.
pub open spec fn parsed_i32(s: Seq<u8>) -> Option<i32> {
    match signed_value(s) {
        Some(v) => if i32::MIN <= v <= i32::MAX {
            Some(v as i32)
        } else {
            None
        },
        None => None,
    }
}

proof fn lemma_prefix_value_bounded(s: Seq<u8>, k: int)
    requires
        0 <= k <= s.len(),
        forall|i: int| 0 <= i < s.len() ==> is_digit(#[trigger] s[i]),
    ensures
        digits_value(s.take(k)) <= digits_value(s),
    decreases s.len(),
{
    if k < s.len() {
        let t = s.drop_last();
        assert(t.take(k) =~= s.take(k));
        lemma_prefix_value_bounded(t, k);
    } else {
        assert(s.take(k) =~= s);
    }
}

/// Parses `buf[start..end]` as a decimal `i32`.
pub fn parse_i32(buf: &[u8], start: usize, end: usize) -> (r: Option<i32>)
    requires
        start <= end <= buf@.len(),
    ensures
        r == parsed_i32(buf@.subrange(start as int, end as int)),
{
    let ghost s = buf@.subrange(start as int, end as int);
    if start == end {
        return None;
    }
    let negative = buf[start] == 45u8;
    let ds: usize = if buf[start] == 45u8 || buf[start] == 43u8 {
        start + 1
    } else {
        start
    };
    let ghost d = buf@.subrange(ds as int, end as int);
    assert(ds > start ==> d =~= s.drop_first());
    assert(ds == start ==> d =~= s);
    if ds == end {
        return None;
    }
    let limit: u64 = 2147483648;
    let mut acc: u64 = 0;
    let mut i: usize = ds;
    while i < end
        invariant
            start <= ds <= i <= end <= buf@.len(),
            d == buf@.subrange(ds as int, end as int),
            s == buf@.subrange(start as int, end as int),
            limit == 2147483648,
            negative == (buf@[start as int] == 45u8),
            ds == start ==> d == s && !(s[0] == 45u8 || s[0] == 43u8),
            ds > start ==> d == s.drop_first() && (s[0] == 45u8 || s[0] == 43u8),
            forall|j: int| ds <= j < i ==> is_digit(#[trigger] buf@[j]),
            acc == digits_value(buf@.subrange(ds as int, i as int)),
            acc <= limit,
        decreases end - i,
    {
        let b = buf[i];
        if b < 48u8 || b > 57u8 {
            assert(d[i - ds] == b);
            assert(!is_digits(d));
            return None;
        }
        let ghost prev = buf@.subrange(ds as int, i as int);
        assert(buf@.subrange(ds as int, i + 1).drop_last() =~= prev);
        assert(buf@.subrange(ds as int, i + 1).last() == b);
        assert(acc * 10 <= limit * 10) by (nonlinear_arith)
            requires
                acc <= limit,
        ;
        let next: u64 = acc * 10 + (b - 48u8) as u64;
        if next > limit {
            proof {
                let w = buf@.subrange(ds as int, i + 1);
                assert(w.drop_last() =~= prev);
                assert(digits_value(w) == next);
                if is_digits(d) {
                    assert(d.take(i + 1 - ds) =~= w);
                    lemma_prefix_value_bounded(d, i + 1 - ds);
                }
            }
            return None;
        }
        acc = next;
        i = i + 1;
    }
    assert(d =~= buf@.subrange(ds as int, i as int));
    if negative {
        Some((0i64 - acc as i64) as i32)
    } else if acc == limit {
        None
    } else {
        Some(acc as i32)
    }
}

} // verus!
