//! Unsigned decimal numbers as the form fields hold them: an optional `+`,
//! then one or more ASCII digits, with no other character anywhere.

use vstd::prelude::*;
use vstd::string::*;

verus! {

/// Whether `c` is one of the ten ASCII digits.
pub open spec fn is_digit(c: char) -> bool {
    '0' <= c && c <= '9'
}

/// The number a single digit stands for.
pub open spec fn digit_value(c: char) -> nat
    recommends
        is_digit(c),
{
    (c as u32 - '0' as u32) as nat
}

/// Whether every character of `s` is a digit.
pub open spec fn all_digits(s: Seq<char>) -> bool {
    forall|i: int| 0 <= i < s.len() ==> is_digit(#[trigger] s[i])
}

/// The number that a run of digits denotes, most significant digit first.
pub open spec fn digits_value(s: Seq<char>) -> nat
    decreases s.len(),
{
    if s.len() == 0 {
        0
    } else {
        10 * digits_value(s.drop_last()) + digit_value(s.last())
    }
}

/// The text without its leading `+`, if it has one.
pub open spec fn unsigned_body(s: Seq<char>) -> Seq<char> {
    if s.len() > 0 && s[0] == '+' {
        s.subrange(1, s.len() as int)
    } else {
        s
    }
}

/// What `s` denotes as an unsigned decimal no greater than `max`:
/// `None` when it is empty, holds anything but digits after the optional
/// sign, or denotes a number above `max`.
pub open spec fn parse_unsigned(s: Seq<char>, max: nat) -> Option<nat> {
    let body = unsigned_body(s);
    if body.len() > 0 && all_digits(body) && digits_value(body) <= max {
        Some(digits_value(body))
    } else {
        None
    }
}

/// Why a text is no unsigned decimal number.
#[derive(Clone, Copy, Debug, PartialEq, Eq, Structural)]
pub enum IntErrorKind {
    /// The text is empty.
    Empty,
    /// The text holds a character that is no digit, or only a sign.
    InvalidDigit,
    /// The digits denote a number that is too large.
    PosOverflow,
}

/// Whether reading `body` from the left comes upon a character that is no
/// digit while the digits before it still denote a number within `max`.
pub open spec fn stops_at_invalid_digit(body: Seq<char>, max: nat) -> bool {
    exists|k: int|
        0 <= k < body.len() && !is_digit(#[trigger] body[k]) && all_digits(body.subrange(0, k))
            && digits_value(body.subrange(0, k)) <= max
}

/// Why `s` is refused, where `parse_unsigned` refuses it: an empty text
/// as such; a text that holds only a sign, or in which a character that is
/// no digit comes before the digits exceed `max`, for an invalid digit;
/// any other for being too large.
pub open spec fn parse_failure(s: Seq<char>, max: nat) -> IntErrorKind {
    if s.len() == 0 {
        IntErrorKind::Empty
    } else if unsigned_body(s).len() == 0 || stops_at_invalid_digit(unsigned_body(s), max) {
        IntErrorKind::InvalidDigit
    } else {
        IntErrorKind::PosOverflow
    }
}

/// What reading `s` gives: the number, or the reason why there is none.
pub open spec fn parse_outcome(s: Seq<char>, max: nat) -> Result<nat, IntErrorKind> {
    match parse_unsigned(s, max) {
        Some(n) => Ok(n),
        None => Err(parse_failure(s, max)),
    }
}

/// A run of digits denotes at least as much as any of its prefixes.
pub proof fn lemma_prefix_value_le(s: Seq<char>, k: int)
    requires
        0 <= k <= s.len(),
    ensures
        digits_value(s.subrange(0, k)) <= digits_value(s),
    decreases s.len() - k,
{
    if k == s.len() {
        assert(s.subrange(0, k) =~= s);
    } else {
        lemma_prefix_value_le(s.drop_last(), k);
        assert(s.drop_last().subrange(0, k) =~= s.subrange(0, k));
    }
}

/// Reads an unsigned decimal that must not exceed `max`, and tells why
/// there is none where the text is refused.
pub fn parse_number(text: &str, max: u64) -> (r: Result<u64, IntErrorKind>)
    ensures
        match r {
            Ok(n) => parse_outcome(text@, max as nat) == Ok::<nat, IntErrorKind>(n as nat),
            Err(kind) => parse_outcome(text@, max as nat) == Err::<nat, IntErrorKind>(kind),
        },
{
    let n: usize = text.unicode_len();
    if n == 0 {
        return Err(IntErrorKind::Empty);
    }
    let start: usize = if text.get_char(0) == '+' { 1 } else { 0 };
    if start == n {
        return Err(IntErrorKind::InvalidDigit);
    }
    let ghost body = unsigned_body(text@);
    let mut acc: u64 = 0;
    let mut i: usize = start;
    while i < n
        invariant
            start <= i <= n,
            n == text@.len(),
            body == unsigned_body(text@),
            body == text@.subrange(start as int, n as int),
            all_digits(body.subrange(0, i - start)),
            acc as nat == digits_value(body.subrange(0, i - start)),
            acc <= max,
        decreases n - i,
    {
        let c: char = text.get_char(i);
        if c < '0' || c > '9' {
            proof {
                assert(body[i - start] == c);
                assert(!is_digit(body[i - start]));
            }
            return Err(IntErrorKind::InvalidDigit);
        }
        let d: u64 = (c as u32 - '0' as u32) as u64;
        proof {
            let next = body.subrange(0, i - start + 1);
            assert(next.drop_last() =~= body.subrange(0, i - start));
            assert(next.last() == c);
            assert(digits_value(next) == 10 * acc + d);
            assert(all_digits(next)) by {
                assert forall|j: int| 0 <= j < next.len() implies is_digit(#[trigger] next[j]) by {
                    if j < i - start {
                        assert(body.subrange(0, i - start)[j] == next[j]);
                    }
                }
            }
            lemma_prefix_value_le(body, i - start + 1);
        }
        if d > max || acc > (max - d) / 10 {
            proof {
                let next = body.subrange(0, i - start + 1);
                assert(digits_value(next) > max);
                assert forall|k: int|
                    0 <= k < body.len() && !is_digit(#[trigger] body[k]) && all_digits(
                        body.subrange(0, k),
                    ) implies digits_value(body.subrange(0, k)) > max by {
                    if k <= i - start {
                        assert(next[k] == body[k]);
                    } else {
                        lemma_prefix_value_le(body.subrange(0, k), i - start + 1);
                        assert(body.subrange(0, k).subrange(0, i - start + 1) =~= next);
                    }
                }
            }
            return Err(IntErrorKind::PosOverflow);
        }
        acc = acc * 10 + d;
        i = i + 1;
    }
    proof {
        assert(body.subrange(0, i - start) =~= body);
    }
    Ok(acc)
}

/// Reads an unsigned decimal that must not exceed `max`.
pub fn parse_bounded(text: &str, max: u64) -> (r: Option<u64>)
    ensures
        r.is_some() == parse_unsigned(text@, max as nat).is_some(),
        r.is_some() ==> r.unwrap() as nat == parse_unsigned(text@, max as nat).unwrap(),
{
    match parse_number(text, max) {
        Ok(n) => Some(n),
        Err(_) => None,
    }
}

/// Reads a `u64` written in decimal.
pub fn parse_u64(text: &str) -> (r: Option<u64>)
    ensures
        r.is_some() == parse_unsigned(text@, u64::MAX as nat).is_some(),
        r.is_some() ==> r.unwrap() as nat == parse_unsigned(text@, u64::MAX as nat).unwrap(),
{
    parse_bounded(text, u64::MAX)
}

/// The character of a digit.
pub open spec fn digit_char(d: nat) -> char
    recommends
        d < 10,
{
    if d == 0 {
        '0'
    } else if d == 1 {
        '1'
    } else if d == 2 {
        '2'
    } else if d == 3 {
        '3'
    } else if d == 4 {
        '4'
    } else if d == 5 {
        '5'
    } else if d == 6 {
        '6'
    } else if d == 7 {
        '7'
    } else if d == 8 {
        '8'
    } else {
        '9'
    }
}

/// A number written in decimal, without sign or leading zero.
pub open spec fn decimal_digits(n: nat) -> Seq<char>
    decreases n,
{
    if n < 10 {
        seq![digit_char(n)]
    } else {
        decimal_digits(n / 10).push(digit_char(n % 10))
    }
}

/// What is written by `decimal_digits` is read back by `parse_unsigned`.
pub proof fn lemma_decimal_round_trip(n: nat, max: nat)
    requires
        n <= max,
    ensures
        parse_unsigned(decimal_digits(n), max) == Some(n),
{
    lemma_decimal_digits(n);
}

/// `decimal_digits` writes at least one character, digits only, and they
/// denote the number.
pub proof fn lemma_decimal_digits(n: nat)
    ensures
        decimal_digits(n).len() > 0,
        all_digits(decimal_digits(n)),
        digits_value(decimal_digits(n)) == n,
        unsigned_body(decimal_digits(n)) == decimal_digits(n),
    decreases n,
{
    let s = decimal_digits(n);
    if n < 10 {
        assert(s.drop_last() =~= Seq::<char>::empty());
        assert(digits_value(s.drop_last()) == 0);
        assert(s.last() == digit_char(n));
        assert(is_digit(s[0]));
    } else {
        lemma_decimal_digits(n / 10);
        let front = decimal_digits(n / 10);
        assert(s.drop_last() =~= front);
        assert(s.last() == digit_char(n % 10));
        assert(digit_value(digit_char(n % 10)) == n % 10);
        assert forall|i: int| 0 <= i < s.len() implies is_digit(#[trigger] s[i]) by {
            if i < front.len() {
                assert(s[i] == front[i]);
            }
        }
        assert(s[0] == front[0]);
    }
}

/// Writes a number in decimal.
pub fn format_u64(n: u64) -> (r: String)
    ensures
        r@ == decimal_digits(n as nat),
    decreases n,
{
    let last: &str = digit_str((n % 10) as u8);
    if n < 10 {
        let r = String::from_str(last);
        proof {
            assert(r@ =~= decimal_digits(n as nat));
        }
        r
    } else {
        let r = format_u64(n / 10).concat(last);
        proof {
            assert(r@ =~= decimal_digits(n as nat));
        }
        r
    }
}

/// The digit `d` as a text of one character.
pub fn digit_str(d: u8) -> (r: &'static str)
    requires
        d < 10,
    ensures
        r@ == seq![digit_char(d as nat)],
{
    proof {
        reveal_strlit("0");
        reveal_strlit("1");
        reveal_strlit("2");
        reveal_strlit("3");
        reveal_strlit("4");
        reveal_strlit("5");
        reveal_strlit("6");
        reveal_strlit("7");
        reveal_strlit("8");
        reveal_strlit("9");
    }
    let r: &'static str = if d == 0 {
        "0"
    } else if d == 1 {
        "1"
    } else if d == 2 {
        "2"
    } else if d == 3 {
        "3"
    } else if d == 4 {
        "4"
    } else if d == 5 {
        "5"
    } else if d == 6 {
        "6"
    } else if d == 7 {
        "7"
    } else if d == 8 {
        "8"
    } else {
        "9"
    };
    proof {
        assert(r@ =~= seq![digit_char(d as nat)]);
    }
    r
}

} // verus!
