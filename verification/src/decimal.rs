//! Decimal rendering and parsing of integers, as `Display` and `FromStr`
//! do it for Rust's primitive integer types.

use vstd::prelude::*;
use vstd::string::*;

verus! {

/// The ASCII digit for `d` (`0 <= d < 10`).
pub open spec fn digit_char(d: int) -> char {
    (d + 48) as char
}

/// Whether `c` is one of the ASCII digits `0`..`9`.
pub open spec fn is_digit(c: char) -> bool {
    '0' <= c && c <= '9'
}

/// The value of the ASCII digit `c`.
pub open spec fn digit_value(c: char) -> int {
    (c as int) - 48
}

/// The decimal text of a natural number, without leading zeros.
pub open spec fn nat_to_decimal(n: nat) -> Seq<char>
    decreases n,
{
    if n < 10 {
        seq![digit_char(n as int)]
    } else {
        nat_to_decimal(n / 10).push(digit_char((n % 10) as int))
    }
}

/// The decimal text of an integer: a `-` in front of negative numbers.
pub open spec fn int_to_decimal(i: int) -> Seq<char> {
    if i < 0 {
        seq!['-'] + nat_to_decimal((-i) as nat)
    } else {
        nat_to_decimal(i as nat)
    }
}

/// Whether every character of `s` is an ASCII digit.
pub open spec fn all_digits(s: Seq<char>) -> bool {
    forall|i: int| 0 <= i < s.len() ==> #[trigger] is_digit(s[i])
}

/// The value of a run of decimal digits (leading zeros allowed).
pub open spec fn digits_value(s: Seq<char>) -> nat
    decreases s.len(),
{
    if s.len() == 0 {
        0
    } else {
        (digits_value(s.drop_last()) * 10 + digit_value(s.last())) as nat
    }
}

/// What `FromStr` gives for a primitive integer type whose values are
/// `min..=max`: an optional `+` (or `-` when the type is signed) followed by
/// at least one ASCII digit, and nothing else; `None` when the text has
/// another form or the value is out of range.
pub open spec fn std_parse_int(s: Seq<char>, signed: bool, min: int, max: int) -> Option<int> {
    let negative = s.len() > 0 && s[0] == '-' && signed;
    let has_sign = s.len() > 0 && (s[0] == '+' || negative);
    let digits = if has_sign { s.drop_first() } else { s };
    if digits.len() == 0 || !all_digits(digits) {
        None
    } else {
        let v: int = if negative { -(digits_value(digits) as int) } else { digits_value(digits) as int };
        if min <= v <= max { Some(v) } else { None }
    }
}

/// The decimal text of a number is a nonempty run of digits worth the number.
pub proof fn lemma_nat_to_decimal_digits(n: nat)
    ensures
        nat_to_decimal(n).len() > 0,
        all_digits(nat_to_decimal(n)),
        digits_value(nat_to_decimal(n)) == n,
    decreases n,
{
    let s = nat_to_decimal(n);
    let d: int = (n % 10) as int;
    assert(digit_value(digit_char(d)) == d);
    if n < 10 {
        assert(is_digit(s[0]));
        assert(s.drop_last() =~= Seq::<char>::empty());
        assert(s.last() == digit_char(d));
        assert(digits_value(s) == digits_value(s.drop_last()) * 10 + digit_value(s.last()));
    } else {
        lemma_nat_to_decimal_digits(n / 10);
        let prefix = nat_to_decimal(n / 10);
        assert(s.drop_last() =~= prefix);
        assert(s.last() == digit_char(d));
        assert(digits_value(s) == digits_value(prefix) * 10 + d);
        assert forall|i: int| 0 <= i < s.len() implies #[trigger] is_digit(s[i]) by {
            if i < prefix.len() {
                assert(s[i] == prefix[i]);
                assert(is_digit(prefix[i]));
            }
        }
    }
}

/// Reading back the decimal text of a number in range gives the number.
pub proof fn lemma_parse_decimal_round_trip(n: nat, max: int)
    requires
        n <= max,
    ensures
        std_parse_int(nat_to_decimal(n), false, 0, max) == Some(n as int),
{
    lemma_nat_to_decimal_digits(n);
    let s = nat_to_decimal(n);
    assert(is_digit(s[0]));
}

/// Appends one character to a `String` (`String::push`).
#[verifier::external_body]
pub(crate) fn push_char(s: &mut String, c: char)
    ensures
        final(s)@ == old(s)@.push(c),
{
    s.push(c);
}

/// The character of a digit `0 <= d < 10`.
pub fn digit_to_char(d: u64) -> (c: char)
    requires
        d < 10,
    ensures
        c == digit_char(d as int),
        is_digit(c),
{
    let b: u8 = 48u8 + (d as u8);
    b as char
}

/// Appends the decimal text of `n` to `out`.
pub fn append_u64(out: &mut String, n: u64)
    ensures
        final(out)@ == old(out)@ + nat_to_decimal(n as nat),
    decreases n,
{
    if n >= 10 {
        append_u64(out, n / 10);
    }
    let c = digit_to_char(n % 10);
    push_char(out, c);
    proof {
        assert(final(out)@ =~= old(out)@ + nat_to_decimal(n as nat));
    }
}

/// Appends the decimal text of `i` to `out`, with a `-` for negative numbers.
pub fn append_i64(out: &mut String, i: i64)
    ensures
        final(out)@ == old(out)@ + int_to_decimal(i as int),
{
    if i < 0 {
        push_char(out, '-');
        let magnitude: u64 = (-(i as i128)) as u64;
        append_u64(out, magnitude);
        proof {
            assert(final(out)@ =~= old(out)@ + int_to_decimal(i as int));
        }
    } else {
        append_u64(out, i as u64);
    }
}

/// The decimal text of `n`, as `n.to_string()` gives it.
pub fn u64_to_string(n: u64) -> (s: String)
    ensures
        s@ == nat_to_decimal(n as nat),
{
    let mut s = String::new();
    append_u64(&mut s, n);
    proof {
        assert(s@ =~= nat_to_decimal(n as nat));
    }
    s
}

/// The decimal text of `i`, as `i.to_string()` gives it.
pub fn i64_to_string(i: i64) -> (s: String)
    ensures
        s@ == int_to_decimal(i as int),
{
    let mut s = String::new();
    append_i64(&mut s, i);
    proof {
        assert(s@ =~= int_to_decimal(i as int));
    }
    s
}


/// A longer run of digits is worth at least as much as any of its prefixes.
pub proof fn lemma_digits_value_prefix(s: Seq<char>, k: int)
    requires
        0 <= k <= s.len(),
        all_digits(s),
    ensures
        digits_value(s.take(k)) <= digits_value(s),
    decreases s.len(),
{
    if k < s.len() {
        let t = s.drop_last();
        assert(all_digits(t)) by {
            assert forall|i: int| 0 <= i < t.len() implies #[trigger] is_digit(t[i]) by {
                assert(is_digit(s[i]));
            }
        }
        lemma_digits_value_prefix(t, k);
        assert(t.take(k) =~= s.take(k));
        assert(is_digit(s[s.len() - 1]));
    } else {
        assert(s.take(k) =~= s);
    }
}

/// Reads `s` from character `start` on as a run of decimal digits whose value
/// is at most `bound`.
fn digits_up_to(s: &str, start: usize, bound: u64) -> (r: Option<u64>)
    requires
        start <= s@.len(),
    ensures
        match r {
            Some(v) => all_digits(s@.skip(start as int)) && v as int == digits_value(s@.skip(start as int))
                && v <= bound,
            None => !all_digits(s@.skip(start as int)) || digits_value(s@.skip(start as int)) > bound,
        },
{
    let n = s.unicode_len();
    let ghost rest = s@.skip(start as int);
    let mut acc: u64 = 0;
    let mut i: usize = start;
    while i < n
        invariant
            n == s@.len(),
            start <= i <= n,
            rest == s@.skip(start as int),
            all_digits(s@.subrange(start as int, i as int)),
            acc as int == digits_value(s@.subrange(start as int, i as int)),
            acc <= bound,
        decreases n - i,
    {
        let c = s.get_char(i);
        let ghost prev = s@.subrange(start as int, i as int);
        let ghost next_seq = s@.subrange(start as int, i + 1);
        assert(next_seq.drop_last() =~= prev);
        assert(next_seq.last() == c);
        assert(rest[i - start] == c);
        if c < '0' || c > '9' {
            assert(!is_digit(rest[i - start]));
            return None;
        }
        let d: u64 = (c as u32 - 48) as u64;
        let next: u128 = (acc as u128) * 10 + (d as u128);
        assert(next as int == digits_value(next_seq));
        assert(all_digits(next_seq)) by {
            assert forall|j: int| 0 <= j < next_seq.len() implies #[trigger] is_digit(next_seq[j]) by {
                if j < prev.len() {
                    assert(next_seq[j] == prev[j]);
                }
            }
        }
        if next > bound as u128 {
            proof {
                if all_digits(rest) {
                    assert(rest.take(i + 1 - start) =~= next_seq);
                    lemma_digits_value_prefix(rest, i + 1 - start);
                }
            }
            return None;
        }
        acc = next as u64;
        i = i + 1;
    }
    assert(s@.subrange(start as int, n as int) =~= rest);
    Some(acc)
}

/// `s.parse::<i64>().ok()`.
pub fn parse_i64(s: &str) -> (r: Option<i64>)
    ensures
        match std_parse_int(s@, true, i64::MIN as int, i64::MAX as int) {
            Some(v) => r == Some(v as i64),
            None => r is None,
        },
{
    let n = s.unicode_len();
    if n == 0 {
        return None;
    }
    let first = s.get_char(0);
    let negative = first == '-';
    let has_sign = first == '+' || negative;
    let start: usize = if has_sign { 1 } else { 0 };
    if start == n {
        return None;
    }
    proof {
        if has_sign {
            assert(s@.skip(1) =~= s@.drop_first());
        } else {
            assert(s@.skip(0) =~= s@);
        }
    }
    let bound: u64 = if negative { 9223372036854775808u64 } else { 9223372036854775807u64 };
    match digits_up_to(s, start, bound) {
        Some(v) => {
            if negative {
                let r: i128 = -(v as i128);
                Some(r as i64)
            } else {
                Some(v as i64)
            }
        },
        None => None,
    }
}

/// Parses an unsigned value that may have a leading `+`, at most `bound`.
fn parse_unsigned(s: &str, bound: u64) -> (r: Option<u64>)
    ensures
        match std_parse_int(s@, false, 0, bound as int) {
            Some(v) => r == Some(v as u64),
            None => r is None,
        },
{
    let n = s.unicode_len();
    if n == 0 {
        return None;
    }
    let first = s.get_char(0);
    let start: usize = if first == '+' { 1 } else { 0 };
    if start == n {
        return None;
    }
    proof {
        if first == '+' {
            assert(s@.skip(1) =~= s@.drop_first());
        } else {
            assert(s@.skip(0) =~= s@);
        }
    }
    digits_up_to(s, start, bound)
}

/// `s.parse::<u64>().ok()`.
pub fn parse_u64(s: &str) -> (r: Option<u64>)
    ensures
        match std_parse_int(s@, false, 0, u64::MAX as int) {
            Some(v) => r == Some(v as u64),
            None => r is None,
        },
{
    parse_unsigned(s, u64::MAX)
}

/// `s.parse::<u32>().ok()`.
pub fn parse_u32(s: &str) -> (r: Option<u32>)
    ensures
        match std_parse_int(s@, false, 0, u32::MAX as int) {
            Some(v) => r == Some(v as u32),
            None => r is None,
        },
{
    match parse_unsigned(s, u32::MAX as u64) {
        Some(v) => Some(v as u32),
        None => None,
    }
}

} // verus!
