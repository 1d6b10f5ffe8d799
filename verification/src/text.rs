//! Decimal numerals: writing them and reading them.

use vstd::prelude::*;
use vstd::string::*;
use vstd::utf8::is_ascii_chars;

verus! {

/// The character that stands for the decimal digit `d`.
pub open spec fn digit_char(d: nat) -> char {
    if d == 0 {
        '0'
    } else if d == 1 {
        '1'
    } else if d == 2 {
        '2'
    } else if d == 3 {
        '3'
    } else if d == 4 {
        '4'
    } else if d == 5 {
        '5'
    } else if d == 6 {
        '6'
    } else if d == 7 {
        '7'
    } else if d == 8 {
        '8'
    } else {
        '9'
    }
}

/// The decimal numeral of `n`, without sign or leading zeros.
pub open spec fn decimal_text(n: nat) -> Seq<char>
    decreases n,
{
    if n < 10 {
        seq![digit_char(n)]
    } else {
        decimal_text(n / 10).push(digit_char(n % 10))
    }
}

fn digit_str(d: usize) -> (r: &'static str)
    requires
        d < 10,
    ensures
        r@ == seq![digit_char(d as nat)],
{
    proof {
        reveal_strlit("0");
        reveal_strlit("1");
        reveal_strlit("2");
        reveal_strlit("3");
        reveal_strlit("4");
        reveal_strlit("5");
        reveal_strlit("6");
        reveal_strlit("7");
        reveal_strlit("8");
        reveal_strlit("9");
    }
    let r = if d == 0 {
        "0"
    } else if d == 1 {
        "1"
    } else if d == 2 {
        "2"
    } else if d == 3 {
        "3"
    } else if d == 4 {
        "4"
    } else if d == 5 {
        "5"
    } else if d == 6 {
        "6"
    } else if d == 7 {
        "7"
    } else if d == 8 {
        "8"
    } else {
        "9"
    };
    assert(r@ =~= seq![digit_char(d as nat)]);
    r
}

/// Writes `n` in decimal.
pub fn decimal_string(n: usize) -> (s: String)
    ensures
        s@ == decimal_text(n as nat),
    decreases n,
{
    if n < 10 {
        String::from_str(digit_str(n))
    } else {
        let mut s = decimal_string(n / 10);
        s.append(digit_str(n % 10));
        assert(s@ =~= decimal_text(n as nat));
        s
    }
}

/// Whether `c` is one of the ten decimal digits.
pub open spec fn is_digit(c: char) -> bool {
    '0' <= c && c <= '9'
}

/// The value of a decimal digit.
pub open spec fn digit_value(c: char) -> nat {
    (c as u32 - 48) as nat
}

/// Whether `s` is a non-empty run of decimal digits.
pub open spec fn all_digits(s: Seq<char>) -> bool {
    s.len() > 0 && forall|i: int| 0 <= i < s.len() ==> is_digit(#[trigger] s[i])
}

/// The number that a run of decimal digits stands for.
pub open spec fn digits_value(s: Seq<char>) -> nat
    decreases s.len(),
{
    if s.len() == 0 {
        0
    } else {
        digits_value(s.drop_last()) * 10 + digit_value(s.last())
    }
}

/// The number that `body` stands for, if it is a run of digits and the
/// number is no more than `max`.
pub open spec fn bounded_value(body: Seq<char>, max: nat) -> Option<nat> {
    if all_digits(body) && digits_value(body) <= max {
        Some(digits_value(body))
    } else {
        None
    }
}

/// `s` without one leading plus sign.
pub open spec fn without_plus(s: Seq<char>) -> Seq<char> {
    if s.len() > 0 && s[0] == '+' {
        s.subrange(1, s.len() as int)
    } else {
        s
    }
}

/// The `u64` that a text stands for: decimal digits, with a plus sign in
/// front if one likes, and nothing else.
pub open spec fn u64_of_text(s: Seq<char>) -> Option<u64> {
    match bounded_value(without_plus(s), 0xffff_ffff_ffff_ffff) {
        Some(v) => Some(v as u64),
        None => None,
    }
}

/// The `i64` that a text stands for: decimal digits, with one sign in
/// front if one likes, and nothing else.
pub open spec fn i64_of_text(s: Seq<char>) -> Option<i64> {
    if s.len() > 0 && s[0] == '-' {
        match bounded_value(s.subrange(1, s.len() as int), 0x8000_0000_0000_0000) {
            Some(v) => Some((0 - v) as i64),
            None => None,
        }
    } else {
        match bounded_value(without_plus(s), 0x7fff_ffff_ffff_ffff) {
            Some(v) => Some(v as i64),
            None => None,
        }
    }
}

/// Digits added at the end never make the number smaller.
pub proof fn lemma_digits_value_grows(s: Seq<char>, k: int)
    requires
        0 <= k <= s.len(),
    ensures
        digits_value(s.subrange(0, k)) <= digits_value(s),
    decreases s.len() - k,
{
    if k == s.len() {
        assert(s.subrange(0, k) =~= s);
    } else {
        lemma_digits_value_grows(s.drop_last(), k);
        assert(s.drop_last().subrange(0, k) =~= s.subrange(0, k));
    }
}

/// A text with a character beyond ASCII has a character that is no digit
/// wherever one cuts a sign off its front.
proof fn lemma_beyond_ascii(s: Seq<char>, from: int)
    requires
        !is_ascii_chars(s),
        0 <= from <= 1,
        from == 1 ==> s.len() > 0 && (s[0] == '+' || s[0] == '-'),
    ensures
        !all_digits(s.subrange(from, s.len() as int)),
{
    let i = choose|i: int| 0 <= i < s.len() && !('\0' <= #[trigger] s[i] <= '\u{7f}');
    let body = s.subrange(from, s.len() as int);
    assert(i >= from);
    assert(body[i - from] == s[i]);
    assert(!is_digit(body[i - from]));
}

fn parse_digits(text: &str, start: usize, max: u64) -> (r: Option<u64>)
    requires
        is_ascii(text),
        start <= text@.len(),
    ensures
        r is Some <==> bounded_value(text@.subrange(start as int, text@.len() as int), max as nat)
            is Some,
        r is Some ==> r->Some_0 == bounded_value(
            text@.subrange(start as int, text@.len() as int),
            max as nat,
        )->Some_0,
{
    broadcast use is_ascii_spec_bytes;

    let bytes = text.as_bytes();
    let n = bytes.len();
    let ghost body = text@.subrange(start as int, text@.len() as int);
    if start >= n {
        return None;
    }
    let mut acc: u64 = 0;
    let mut i: usize = start;
    assert(text@.subrange(start as int, start as int) =~= Seq::<char>::empty());
    while i < n
        invariant
            start <= i <= n,
            n == text@.len(),
            is_ascii(text),
            bytes@ == text.spec_bytes(),
            body == text@.subrange(start as int, text@.len() as int),
            forall|j: int| start <= j < i ==> is_digit(#[trigger] text@[j]),
            acc == digits_value(text@.subrange(start as int, i as int)),
            acc <= max,
        decreases n - i,
    {
        let b = bytes[i];
        assert(b == text@[i as int] as u8);
        assert('\0' <= text@[i as int] <= '\u{7f}');
        if b < 48 || b > 57 {
            proof {
                assert(body[i - start] == text@[i as int]);
                assert(!is_digit(body[i - start]));
            }
            return None;
        }
        let next: u128 = acc as u128 * 10 + (b - 48) as u128;
        proof {
            let upto = text@.subrange(start as int, i + 1);
            assert(upto.drop_last() =~= text@.subrange(start as int, i as int));
            assert(upto.last() == text@[i as int]);
            assert(digit_value(text@[i as int]) == (b - 48) as nat);
            assert(digits_value(upto) == next);
            assert(upto =~= body.subrange(0, i + 1 - start));
            lemma_digits_value_grows(body, i + 1 - start);
        }
        if next > max as u128 {
            return None;
        }
        acc = next as u64;
        i += 1;
    }
    proof {
        assert(text@.subrange(start as int, i as int) =~= body);
        assert forall|j: int| 0 <= j < body.len() implies is_digit(#[trigger] body[j]) by {
            assert(body[j] == text@[start + j]);
        }
    }
    Some(acc)
}

/// Reads a `u64` from decimal text.
pub fn parse_u64(text: &str) -> (r: Option<u64>)
    ensures
        r == u64_of_text(text@),
{
    broadcast use is_ascii_spec_bytes;

    if !text.is_ascii() {
        proof {
            lemma_beyond_ascii(text@, if text@.len() > 0 && text@[0] == '+' { 1 } else { 0 });
            assert(text@.subrange(0, text@.len() as int) =~= text@);
        }
        return None;
    }
    let bytes = text.as_bytes();
    let start: usize = if bytes.len() > 0 && bytes[0] == 43 {
        1
    } else {
        0
    };
    proof {
        if text@.len() > 0 {
            assert(bytes@[0] == text@[0] as u8);
            assert('\0' <= text@[0] <= '\u{7f}');
        }
        assert(text@.subrange(0, text@.len() as int) =~= text@);
    }
    parse_digits(text, start, 0xffff_ffff_ffff_ffff)
}

/// Reads an `i64` from decimal text.
pub fn parse_i64(text: &str) -> (r: Option<i64>)
    ensures
        r == i64_of_text(text@),
{
    broadcast use is_ascii_spec_bytes;

    if !text.is_ascii() {
        proof {
            lemma_beyond_ascii(
                text@,
                if text@.len() > 0 && (text@[0] == '+' || text@[0] == '-') { 1 } else { 0 },
            );
            assert(text@.subrange(0, text@.len() as int) =~= text@);
        }
        return None;
    }
    let bytes = text.as_bytes();
    proof {
        if text@.len() > 0 {
            assert(bytes@[0] == text@[0] as u8);
            assert('\0' <= text@[0] <= '\u{7f}');
        }
        assert(text@.subrange(0, text@.len() as int) =~= text@);
    }
    if bytes.len() > 0 && bytes[0] == 45 {
        match parse_digits(text, 1, 0x8000_0000_0000_0000) {
            Some(v) => {
                if v == 0x8000_0000_0000_0000 {
                    Some(i64::MIN)
                } else {
                    Some(0 - (v as i64))
                }
            },
            None => None,
        }
    } else {
        let start: usize = if bytes.len() > 0 && bytes[0] == 43 {
            1
        } else {
            0
        };
        match parse_digits(text, start, 0x7fff_ffff_ffff_ffff) {
            Some(v) => Some(v as i64),
            None => None,
        }
    }
}

} // verus!
