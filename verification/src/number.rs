//! Decimal text of integers: formatting (as `{}` prints them) and parsing
//! (as `str::parse` reads them).
use vstd::prelude::*;

verus! {

/// An ASCII decimal digit.
pub open spec fn is_digit(c: char) -> bool {
    48 <= (c as u32) <= 57
}

/// The value of an ASCII decimal digit.
pub open spec fn digit_value(c: char) -> nat {
    ((c as u32) - 48) as nat
}

/// The ASCII character of the digit `d`.
pub open spec fn digit_char(d: nat) -> char {
    ((d + 48) as u32) as char
}

/// The decimal text of `n`, without leading zeros.
pub open spec fn nat_str(n: nat) -> Seq<char>
    decreases n,
{
    if n < 10 {
        seq![digit_char(n)]
    } else {
        nat_str(n / 10).push(digit_char(n % 10))
    }
}

/// The decimal text of `i`, with a leading `-` when negative.
pub open spec fn int_str(i: int) -> Seq<char> {
    if i < 0 {
        seq!['-'] + nat_str((-i) as nat)
    } else {
        nat_str(i as nat)
    }
}

/// The character of a digit.
pub fn digit_to_char(d: u64) -> (c: char)
    requires
        d < 10,
    ensures
        c == digit_char(d as nat),
        is_digit(c),
        digit_value(c) == d,
{
    let b: u8 = 48u8 + (d as u8);
    b as char
}

/// The decimal text of a natural number.
pub fn nat_chars(n: u64) -> (v: Vec<char>)
    ensures
        v@ == nat_str(n as nat),
    decreases n,
{
    if n < 10 {
        let mut v: Vec<char> = Vec::new();
        v.push(digit_to_char(n));
        assert(v@ =~= seq![digit_char(n as nat)]);
        v
    } else {
        let mut v = nat_chars(n / 10);
        v.push(digit_to_char(n % 10));
        v
    }
}

/// The decimal text of an integer.
pub fn int_chars(i: i64) -> (v: Vec<char>)
    ensures
        v@ == int_str(i as int),
{
    if i < 0 {
        let m: u64 = if i == i64::MIN {
            9223372036854775808u64
        } else {
            (-i) as u64
        };
        let digits = nat_chars(m);
        let mut v: Vec<char> = Vec::new();
        v.push('-');
        let n = digits.len();
        for k in 0..n
            invariant
                n == digits@.len(),
                v@ == seq!['-'] + digits@.take(k as int),
        {
            v.push(digits[k]);
            assert(digits@.take(k + 1) =~= digits@.take(k as int).push(digits@[k as int]));
        }
        assert(digits@.take(n as int) =~= digits@);
        v
    } else {
        nat_chars(i as u64)
    }
}

/// Every character of `s` is an ASCII digit.
pub open spec fn all_digits(s: Seq<char>) -> bool {
    forall|i: int| 0 <= i < s.len() ==> is_digit(#[trigger] s[i])
}

/// The value of a string of decimal digits.
pub open spec fn digits_value(s: Seq<char>) -> nat
    decreases s.len(),
{
    if s.len() == 0 {
        0
    } else {
        digits_value(s.drop_last()) * 10 + digit_value(s.last())
    }
}

/// What `str::parse` gives for a signed integer type with range `lo..=hi`:
/// an optional `+` or `-`, then one or more ASCII digits, with a value in
/// range; anything else is an error (`None`).
pub open spec fn parse_int(s: Seq<char>, lo: int, hi: int) -> Option<int> {
    let neg = s.len() > 0 && s[0] == '-';
    let body = if s.len() > 0 && (s[0] == '-' || s[0] == '+') {
        s.drop_first()
    } else {
        s
    };
    if body.len() == 0 || !all_digits(body) {
        None
    } else {
        let v: int = if neg {
            -digits_value(body)
        } else {
            digits_value(body) as int
        };
        if lo <= v <= hi {
            Some(v)
        } else {
            None
        }
    }
}

/// `str::parse::<i32>`.
pub open spec fn parse_i32(s: Seq<char>) -> Option<int> {
    parse_int(s, i32::MIN as int, i32::MAX as int)
}

/// `str::parse::<i8>`.
pub open spec fn parse_i8(s: Seq<char>) -> Option<int> {
    parse_int(s, i8::MIN as int, i8::MAX as int)
}

/// Decide whether a character is an ASCII digit.
pub fn is_digit_char(c: char) -> (r: bool)
    ensures
        r == is_digit(c),
{
    let u = c as u32;
    48 <= u && u <= 57
}

/// The value of a digit character.
pub fn digit_of(c: char) -> (d: u64)
    requires
        is_digit(c),
    ensures
        d == digit_value(c),
        d < 10,
{
    ((c as u32) - 48) as u64
}

/// Compute `parse_int` for a range within `-2^40..2^40`.
pub fn parse_int_chars(s: &Vec<char>, lo: i64, hi: i64) -> (r: Option<i64>)
    requires
        -0x100_0000_0000 < lo,
        hi < 0x100_0000_0000,
    ensures
        r matches Some(v) ==> parse_int(s@, lo as int, hi as int) == Some(v as int),
        r is None ==> parse_int(s@, lo as int, hi as int) is None,
{
    let cap: u64 = 0x100_0000_0000;
    let n = s.len();
    let neg = n > 0 && s[0] == '-';
    let start: usize = if n > 0 && (s[0] == '-' || s[0] == '+') {
        1
    } else {
        0
    };
    let ghost body = if s@.len() > 0 && (s@[0] == '-' || s@[0] == '+') {
        s@.drop_first()
    } else {
        s@
    };
    assert(body =~= s@.subrange(start as int, n as int));
    if start >= n {
        return None;
    }
    let mut acc: u64 = 0;
    let mut i = start;
    while i < n
        invariant
            n == s@.len(),
            start <= i <= n,
            body =~= s@.subrange(start as int, n as int),
            body == (if s@.len() > 0 && (s@[0] == '-' || s@[0] == '+') {
                s@.drop_first()
            } else {
                s@
            }),
            all_digits(body.take(i - start)),
            acc == if digits_value(body.take(i - start)) < cap {
                digits_value(body.take(i - start))
            } else {
                cap as nat
            },
            cap == 0x100_0000_0000,
        decreases n - i,
    {
        if !is_digit_char(s[i]) {
            assert(body[i - start] == s@[i as int]);
            assert(!is_digit(body[i - start]));
            assert(!all_digits(body));
            return None;
        }
        let d = digit_of(s[i]);
        let ghost prev = body.take(i - start);
        let ghost next = body.take(i + 1 - start);
        assert(next.drop_last() =~= prev);
        assert(next.last() == s@[i as int]);
        assert(digits_value(next) == digits_value(prev) * 10 + d);
        if acc >= cap {
            acc = cap;
        } else {
            let t = acc * 10 + d;
            acc = if t >= cap {
                cap
            } else {
                t
            };
        }
        i = i + 1;
        assert(all_digits(body.take(i - start))) by {
            assert forall|k: int| 0 <= k < next.len() implies is_digit(#[trigger] next[k]) by {
                if k < prev.len() {
                    assert(next[k] == prev[k]);
                }
            }
        }
    }
    assert(body.take(n - start) =~= body);
    let v: i64 = acc as i64;
    let v: i64 = if neg {
        -v
    } else {
        v
    };
    if acc >= cap {
        return None;
    }
    if lo <= v && v <= hi {
        Some(v)
    } else {
        None
    }
}

/// `str::parse::<i32>` on a character vector.
pub fn parse_i32_chars(s: &Vec<char>) -> (r: Option<i32>)
    ensures
        r matches Some(v) ==> parse_i32(s@) == Some(v as int),
        r is None ==> parse_i32(s@) is None,
{
    match parse_int_chars(s, i32::MIN as i64, i32::MAX as i64) {
        Some(v) => Some(v as i32),
        None => None,
    }
}

/// `str::parse::<i8>` on a character vector.
pub fn parse_i8_chars(s: &Vec<char>) -> (r: Option<i8>)
    ensures
        r matches Some(v) ==> parse_i8(s@) == Some(v as int),
        r is None ==> parse_i8(s@) is None,
{
    match parse_int_chars(s, i8::MIN as i64, i8::MAX as i64) {
        Some(v) => Some(v as i8),
        None => None,
    }
}

} // verus!
