//! Decimal numerals: how a number is written, and how a captured piece of
//! text is read back as a small number.

use vstd::prelude::*;

verus! {

/// Whether `c` is one of the ten ASCII digits.
pub open spec fn is_digit(c: char) -> bool {
    '0' <= c && c <= '9'
}

/// The value of the ASCII digit `c`.
pub open spec fn digit_value(c: char) -> nat
    recommends
        is_digit(c),
{
    (c as int - '0' as int) as nat
}

/// The ASCII digit that writes `d`.
pub open spec fn digit_char(d: nat) -> char
    recommends
        d < 10,
{
    ('0' as nat + d) as char
}

/// The decimal numeral of `n`: no sign, no padding, no leading zero but for
/// `0` itself.
pub open spec fn decimal(n: nat) -> Seq<char>
    decreases n,
{
    if n < 10 {
        seq![digit_char(n)]
    } else {
        decimal(n / 10).push(digit_char(n % 10))
    }
}

/// Whether every character of `s` is an ASCII digit.
pub open spec fn all_digits(s: Seq<char>) -> bool {
    forall|i: int| 0 <= i < s.len() ==> is_digit(#[trigger] s[i])
}

/// The number that a run of digits writes in base ten; leading zeros count
/// for nothing.
pub open spec fn digits_value(s: Seq<char>) -> nat
    decreases s.len(),
{
    if s.len() == 0 {
        0
    } else {
        digits_value(s.drop_last()) * 10 + digit_value(s.last())
    }
}

/// What is left of `s` once one leading `+` is taken away.
pub open spec fn unsigned_part(s: Seq<char>) -> Seq<char> {
    if s.len() > 0 && s[0] == '+' {
        s.subrange(1, s.len() as int)
    } else {
        s
    }
}

/// The number from 0 to 255 that `s` writes: an optional `+`, then one or
/// more ASCII digits and nothing else. `None` for any other text and for a
/// number above 255.
pub open spec fn parsed_u8(s: Seq<char>) -> Option<u8> {
    let digits = unsigned_part(s);
    if digits.len() > 0 && all_digits(digits) && digits_value(digits) <= u8::MAX {
        Some(digits_value(digits) as u8)
    } else {
        None
    }
}

/// The number from 1 to 255 that `s` writes: as `parsed_u8`, but a numeral
/// worth 0 writes no such number.
pub open spec fn parsed_positive(s: Seq<char>) -> Option<u8> {
    match parsed_u8(s) {
        Some(n) => if n >= 1 {
            Some(n)
        } else {
            None
        },
        None => None,
    }
}

/// A run of digits is worth at least as much as any of its prefixes.
proof fn lemma_prefix_value(s: Seq<char>, k: int)
    requires
        0 <= k <= s.len(),
    ensures
        digits_value(s.subrange(0, k)) <= digits_value(s),
    decreases s.len(),
{
    if k == s.len() {
        assert(s.subrange(0, k) =~= s);
    } else {
        lemma_prefix_value(s.drop_last(), k);
        assert(s.drop_last().subrange(0, k) =~= s.subrange(0, k));
    }
}

/// The numeral of `n` is a non-empty run of digits worth `n`.
pub proof fn lemma_decimal_digits(n: nat)
    ensures
        decimal(n).len() > 0,
        all_digits(decimal(n)),
        digits_value(decimal(n)) == n,
    decreases n,
{
    if n < 10 {
        let s = decimal(n);
        assert(digits_value(s.drop_last()) == 0);
    } else {
        lemma_decimal_digits(n / 10);
        let s = decimal(n);
        assert(s.drop_last() =~= decimal(n / 10));
    }
}

/// Reading back the numeral of a number from 0 to 255 gives that number.
pub proof fn lemma_parse_decimal(n: u8)
    ensures
        parsed_u8(decimal(n as nat)) == Some(n),
        n >= 1 ==> parsed_positive(decimal(n as nat)) == Some(n),
{
    lemma_decimal_digits(n as nat);
}

/// The value of the ASCII digit `c`, if it is one.
fn digit_of(c: char) -> (r: Option<u8>)
    ensures
        r is Some <==> is_digit(c),
        r matches Some(d) ==> d == digit_value(c) && d < 10,
{
    if '0' <= c && c <= '9' {
        Some((c as u32 - '0' as u32) as u8)
    } else {
        None
    }
}

/// Reads `text` as a number from 0 to 255.
pub fn parse_u8(text: &str) -> (r: Option<u8>)
    ensures
        r == parsed_u8(text@),
{
    let mut value: u8 = 0;
    let mut first = true;
    let mut signed = false;
    let mut any = false;
    for c in it: text.chars()
        invariant
            it.seq() == text@,
            it.index() <= text@.len(),
            first <==> it.index() == 0,
            first ==> !signed && !any && value == 0,
            !first ==> (signed <==> text@[0] == '+'),
            any <==> it.index() > (if signed { 1int } else { 0int }),
            !first ==> all_digits(text@.subrange(if signed { 1int } else { 0int }, it.index() as int)),
            !first ==> value == digits_value(
                text@.subrange(if signed { 1int } else { 0int }, it.index() as int),
            ),
    {
        let ghost i = it.index() as int;
        if first && c == '+' {
            first = false;
            signed = true;
        } else {
            first = false;
            let ghost start = if signed { 1int } else { 0int };
            let ghost digits = unsigned_part(text@);
            let ghost before = text@.subrange(start, i);
            let ghost after = text@.subrange(start, i + 1);
            proof {
                assert(after.drop_last() =~= before);
                assert(digits.subrange(0, i + 1 - start) =~= after);
                assert(digits[i - start] == c);
            }
            match digit_of(c) {
                None => {
                    return None;
                },
                Some(d) => {
                    if value > 25 || (value == 25 && d > 5) {
                        proof {
                            lemma_prefix_value(digits, i + 1 - start);
                        }
                        return None;
                    }
                    value = value * 10 + d;
                    any = true;
                },
            }
        }
    }
    proof {
        let start = if signed { 1int } else { 0int };
        assert(unsigned_part(text@) =~= text@.subrange(start, text@.len() as int));
    }
    if any {
        Some(value)
    } else {
        None
    }
}

/// Reads `text` as a number from 1 to 255.
pub fn parse_positive(text: &str) -> (r: Option<u8>)
    ensures
        r == parsed_positive(text@),
{
    match parse_u8(text) {
        Some(n) => if n >= 1 {
            Some(n)
        } else {
            None
        },
        None => None,
    }
}

/// The one-character text that writes the digit `d`.
fn digit_text(d: u32) -> (r: &'static str)
    requires
        d < 10,
    ensures
        r@ == seq![digit_char(d as nat)],
{
    proof {
        reveal_strlit("0");
        reveal_strlit("1");
        reveal_strlit("2");
        reveal_strlit("3");
        reveal_strlit("4");
        reveal_strlit("5");
        reveal_strlit("6");
        reveal_strlit("7");
        reveal_strlit("8");
        reveal_strlit("9");
    }
    if d == 0 {
        "0"
    } else if d == 1 {
        "1"
    } else if d == 2 {
        "2"
    } else if d == 3 {
        "3"
    } else if d == 4 {
        "4"
    } else if d == 5 {
        "5"
    } else if d == 6 {
        "6"
    } else if d == 7 {
        "7"
    } else if d == 8 {
        "8"
    } else {
        "9"
    }
}

/// Writes the decimal numeral of `n` at the end of `out`.
pub fn append_decimal(out: &mut String, n: u32)
    ensures
        final(out)@ == old(out)@ + decimal(n as nat),
    decreases n,
{
    if n >= 10 {
        append_decimal(out, n / 10);
    }
    out.append(digit_text(n % 10));
}

} // verus!
