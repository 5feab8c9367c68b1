use vstd::prelude::*;

use vstd::utf8::is_ascii_chars;

use crate::util::push_char;

verus! {

/// The character of a decimal digit.
pub open spec fn digit_char(d: nat) -> char {
    ((d + 48) as u8) as char
}

/// The decimal form of a number, without sign or leading zeros.
pub open spec fn decimal_chars(n: nat) -> Seq<char>
    decreases n,
{
    if n < 10 {
        seq![digit_char(n)]
    } else {
        decimal_chars(n / 10).push(digit_char(n % 10))
    }
}

pub open spec fn is_digit(c: char) -> bool {
    '0' <= c && c <= '9'
}

/// The value of a string of decimal digits.
pub open spec fn digits_value(s: Seq<char>) -> nat
    decreases s.len(),
{
    if s.len() == 0 {
        0
    } else {
        digits_value(s.drop_last()) * 10 + (s.last() as nat - 48) as nat
    }
}

/// A string without its one optional leading `+`.
pub open spec fn unsigned_body(s: Seq<char>) -> Seq<char> {
    if s.len() > 0 && s[0] == '+' { s.drop_first() } else { s }
}

pub open spec fn all_digits(s: Seq<char>) -> bool {
    forall|i: int| 0 <= i < s.len() ==> is_digit(#[trigger] s[i])
}

/// The digits of an unsigned number as `str::parse` accepts it: one optional
/// leading `+`, then at least one decimal digit.
pub open spec fn unsigned_digits(s: Seq<char>) -> Option<Seq<char>> {
    let body = unsigned_body(s);
    if body.len() > 0 && all_digits(body) {
        Some(body)
    } else {
        None
    }
}

/// The number a string states, if it is a decimal number not above `max`.
pub open spec fn parse_unsigned(s: Seq<char>, max: nat) -> Option<nat> {
    match unsigned_digits(s) {
        Some(body) => if digits_value(body) <= max { Some(digits_value(body)) } else { None },
        None => None,
    }
}

/// Appends the decimal form of `n`.
pub fn push_decimal(s: &mut String, n: u64)
    ensures
        final(s)@ == old(s)@ + decimal_chars(n as nat),
    decreases n,
{
    if n >= 10 {
        push_decimal(s, n / 10);
    }
    let d: u8 = (n % 10) as u8;
    push_char(s, (d + 48) as char);
    assert(n >= 10 ==> decimal_chars(n as nat) == decimal_chars((n / 10) as nat).push(digit_char((n % 10) as nat)));
}

/// The decimal form of `n`.
pub fn to_decimal(n: u64) -> (r: String)
    ensures
        r@ == decimal_chars(n as nat),
{
    let mut s = String::new();
    push_decimal(&mut s, n);
    assert(s@ =~= decimal_chars(n as nat));
    s
}

proof fn lemma_digits_value_push(s: Seq<char>, c: char)
    ensures
        digits_value(s.push(c)) == digits_value(s) * 10 + (c as nat - 48) as nat,
{
    assert(s.push(c).drop_last() =~= s);
}

proof fn lemma_unsigned_digits_ascii(s: Seq<char>)
    requires
        unsigned_digits(s) is Some,
    ensures
        is_ascii_chars(s),
{
    let body = unsigned_body(s);
    assert(all_digits(body));
    assert forall|i: int| 0 <= i < s.len() implies '\0' <= #[trigger] s[i] <= '\u{7f}' by {
        if s[0] == '+' {
            if i > 0 {
                assert(body[i - 1] == s[i]);
            }
        } else {
            assert(body[i] == s[i]);
        }
    }
}

fn parse_unsigned_max(s: &String, max: u64) -> (r: Option<u64>)
    requires
        max >= 9,
    ensures
        r matches Some(v) ==> parse_unsigned(s@, max as nat) == Some(v as nat),
        r is None ==> parse_unsigned(s@, max as nat) is None,
{
    let t = s.as_str();
    if !t.is_ascii() {
        proof {
            if unsigned_digits(s@) is Some {
                lemma_unsigned_digits_ascii(s@);
            }
        }
        return None;
    }
    let b = t.as_bytes();
    proof {
        broadcast use vstd::string::is_ascii_spec_bytes;
        assert(b@ =~= Seq::new(s@.len(), |i| s@[i] as u8));
    }
    let n = b.len();
    let mut start: usize = 0;
    if n > 0 && b[0] == 43u8 {
        start = 1;
    }
    proof {
        broadcast use vstd::utf8::is_ascii_chars_nat_bound;
        if n > 0 {
            assert((s@[0] as nat) < 128);
            assert((s@[0] as u8) as nat == s@[0] as nat);
        }
    }
    assert(start == 1 <==> (s@.len() > 0 && s@[0] == '+'));
    if start >= n {
        return None;
    }
    let ghost body = s@.subrange(start as int, n as int);
    assert(start == 1 ==> body =~= s@.drop_first());
    assert(start == 0 ==> body =~= s@);
    let mut v: u64 = 0;
    let mut i: usize = start;
    let mut over = false;
    while i < n
        invariant
            start <= i <= n,
            n == s@.len(),
            max >= 9,
            b@ == Seq::new(s@.len(), |k| s@[k] as u8),
            is_ascii_chars(s@),
            body == s@.subrange(start as int, n as int),
            body == unsigned_body(s@),
            forall|k: int| start <= k < i ==> is_digit(#[trigger] s@[k]),
            !over ==> v as nat == digits_value(s@.subrange(start as int, i as int)) && v <= max,
            over ==> digits_value(s@.subrange(start as int, i as int)) > max,
        decreases n - i,
    {
        let c = b[i];
        assert(c == s@[i as int] as u8);
        if c < 48 || c > 57 {
            proof {
                broadcast use vstd::utf8::is_ascii_chars_nat_bound;
                assert((s@[i as int] as nat) < 128);
                assert((s@[i as int] as u8) as nat == s@[i as int] as nat);
                assert(body[i - start] == s@[i as int]);
                assert(!is_digit(body[i - start]));
                assert(body == unsigned_body(s@));
                assert(!all_digits(body));
            }
            return None;
        }
        let d = (c - 48) as u64;
        assert(d <= 9);
        proof {
            assert(s@.subrange(start as int, i + 1) =~= s@.subrange(start as int, i as int).push(s@[i as int]));
            lemma_digits_value_push(s@.subrange(start as int, i as int), s@[i as int]);
            broadcast use vstd::utf8::is_ascii_chars_nat_bound;
            assert((s@[i as int] as nat) < 128);
            assert(s@[i as int] as nat - 48 == d);
        }
        if !over {
            if v > (max - d) / 10 {
                over = true;
                assert(v * 10 + d > max) by (nonlinear_arith)
                    requires v > (max - d) / 10, d <= max;
            } else {
                assert(v * 10 + d <= max) by (nonlinear_arith)
                    requires v <= (max - d) / 10, d <= max;
                v = v * 10 + d;
            }
        } else {
            assert(digits_value(s@.subrange(start as int, i as int)) * 10 + d > max) by (nonlinear_arith)
                requires digits_value(s@.subrange(start as int, i as int)) > max;
        }
        i = i + 1;
    }
    assert(s@.subrange(start as int, n as int) =~= body);
    assert forall|k: int| 0 <= k < body.len() implies is_digit(#[trigger] body[k]) by {
        assert(body[k] == s@[k + start]);
    }
    if over {
        None
    } else {
        Some(v)
    }
}

/// Reads a `u32` written in decimal, as `str::parse::<u32>` does.
pub fn parse_u32(s: &String) -> (r: Option<u32>)
    ensures
        r matches Some(v) ==> parse_unsigned(s@, u32::MAX as nat) == Some(v as nat),
        r is None ==> parse_unsigned(s@, u32::MAX as nat) is None,
{
    match parse_unsigned_max(s, u32::MAX as u64) {
        Some(v) => Some(v as u32),
        None => None,
    }
}

/// Reads a `u64` written in decimal, as `str::parse::<u64>` does.
pub fn parse_u64(s: &String) -> (r: Option<u64>)
    ensures
        r matches Some(v) ==> parse_unsigned(s@, u64::MAX as nat) == Some(v as nat),
        r is None ==> parse_unsigned(s@, u64::MAX as nat) is None,
{
    parse_unsigned_max(s, u64::MAX)
}

} // verus!
