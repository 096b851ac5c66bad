//! Decimal notation of unsigned numbers: reading a number from text and
//! writing one out.

use vstd::prelude::*;
use vstd::string::*;

verus! {

/// `c` is one of the ten ASCII digits.
pub open spec fn is_digit(c: char) -> bool {
    '0' <= c && c <= '9'
}

/// The number that the ASCII digit `c` stands for.
pub open spec fn digit_value(c: char) -> nat {
    (c as int - '0' as int) as nat
}

/// The ASCII digit that stands for `d`, for `d` below ten.
pub open spec fn digit_char(d: nat) -> char {
    ('0' as int + d) as char
}

/// Every character of `s` is an ASCII digit.
pub open spec fn all_digits(s: Seq<char>) -> bool {
    forall|i: int| 0 <= i < s.len() ==> is_digit(#[trigger] s[i])
}

/// The number written by the digits `s`, most significant digit first.
pub open spec fn digits_value(s: Seq<char>) -> nat
    decreases s.len(),
{
    if s.len() == 0 {
        0
    } else {
        digits_value(s.drop_last()) * 10 + digit_value(s.last())
    }
}

/// `s` without the one `+` sign that may lead a number.
pub open spec fn without_sign(s: Seq<char>) -> Seq<char> {
    if s.len() > 0 && s[0] == '+' {
        s.subrange(1, s.len() as int)
    } else {
        s
    }
}

/// The `u32` that the text `s` denotes: an optional `+`, then one or more
/// ASCII digits whose value fits in 32 bits. Any other text denotes nothing.
pub open spec fn parse_u32_spec(s: Seq<char>) -> Option<u32> {
    let digits = without_sign(s);
    if digits.len() > 0 && all_digits(digits) && digits_value(digits) <= u32::MAX {
        Some(digits_value(digits) as u32)
    } else {
        None
    }
}

/// The decimal notation of `n`, without leading zeros.
pub open spec fn decimal(n: nat) -> Seq<char>
    decreases n,
{
    if n < 10 {
        seq![digit_char(n)]
    } else {
        decimal(n / 10).push(digit_char(n % 10))
    }
}

/// The decimal notation of a number is plain: one or more ASCII digits and
/// nothing else, no leading zero but for zero itself, and its digits are
/// worth the number.
pub proof fn lemma_decimal_is_plain(n: nat)
    ensures
        decimal(n).len() >= 1,
        all_digits(decimal(n)),
        n > 0 ==> decimal(n)[0] != '0',
        digits_value(decimal(n)) == n,
    decreases n,
{
    if n < 10 {
        assert(decimal(n).drop_last() =~= Seq::<char>::empty());
        assert(digits_value(decimal(n).drop_last()) == 0);
    } else {
        lemma_decimal_is_plain(n / 10);
        assert(decimal(n).drop_last() =~= decimal(n / 10));
        assert(decimal(n)[0] == decimal(n / 10)[0]);
    }
}

/// What `push_decimal` writes, `parse_u32` reads back as the same number.
pub proof fn lemma_decimal_parses_back(n: u32)
    ensures
        parse_u32_spec(decimal(n as nat)) == Some(n),
{
    lemma_decimal_is_plain(n as nat);
    assert(is_digit(decimal(n as nat)[0]));
}

/// Reads a `u32` from its decimal notation.
pub fn parse_u32(s: &str) -> (r: Option<u32>)
    ensures
        r == parse_u32_spec(s@),
{
    let n: usize = s.unicode_len();
    let start: usize = if n > 0 && s.get_char(0) == '+' { 1 } else { 0 };
    if start == n {
        return None;
    }
    let ghost digits = without_sign(s@);
    let mut value: u64 = 0;
    let mut too_large: bool = false;
    let mut i: usize = start;
    while i < n
        invariant
            start <= i <= n,
            n == s@.len(),
            digits == without_sign(s@),
            digits == s@.subrange(start as int, n as int),
            all_digits(digits.take(i - start)),
            !too_large ==> value == digits_value(digits.take(i - start)) && value <= u32::MAX,
            too_large ==> digits_value(digits.take(i - start)) > u32::MAX,
        decreases n - i,
    {
        let c: char = s.get_char(i);
        if !(c >= '0' && c <= '9') {
            assert(!is_digit(digits[i - start]));
            return None;
        }
        let d: u64 = (c as u32 - '0' as u32) as u64;
        proof {
            let next = digits.take(i - start + 1);
            assert(next.drop_last() =~= digits.take(i - start));
        }
        if !too_large {
            value = value * 10 + d;
            if value > u32::MAX as u64 {
                too_large = true;
            }
        }
        i = i + 1;
    }
    assert(digits.take(n - start) =~= digits);
    if too_large {
        None
    } else {
        Some(value as u32)
    }
}

/// The one-character text of the digit `d`.
fn digit_text(d: u32) -> (r: &'static str)
    requires
        d < 10,
    ensures
        r@ == seq![digit_char(d as nat)],
{
    proof {
        reveal_strlit("0");
        reveal_strlit("1");
        reveal_strlit("2");
        reveal_strlit("3");
        reveal_strlit("4");
        reveal_strlit("5");
        reveal_strlit("6");
        reveal_strlit("7");
        reveal_strlit("8");
        reveal_strlit("9");
    }
    let r: &'static str = match d {
        0 => "0",
        1 => "1",
        2 => "2",
        3 => "3",
        4 => "4",
        5 => "5",
        6 => "6",
        7 => "7",
        8 => "8",
        _ => "9",
    };
    assert(r@ =~= seq![digit_char(d as nat)]);
    r
}

/// Appends the decimal notation of `n` to `out`.
pub fn push_decimal(out: &mut String, n: u32)
    ensures
        final(out)@ == old(out)@ + decimal(n as nat),
    decreases n,
{
    if n >= 10 {
        push_decimal(out, n / 10);
    }
    out.append(digit_text(n % 10));
}

} // verus!
