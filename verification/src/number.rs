//! Decimal numbers as text.
use crate::text;
use vstd::prelude::*;

verus! {

/// The digit that stands for `d`, which is less than ten.
pub open spec fn digit(d: int) -> char {
    (48 + d) as char
}

/// A number in decimal, without leading zeros.
pub open spec fn decimal(n: nat) -> Seq<char>
    decreases n,
{
    if n < 10 {
        seq![digit(n as int)]
    } else {
        decimal(n / 10).push(digit((n % 10) as int))
    }
}

/// A signed number in decimal.
pub open spec fn signed_decimal(n: int) -> Seq<char> {
    if n < 0 {
        seq!['-'] + decimal((-n) as nat)
    } else {
        decimal(n as nat)
    }
}

/// The number that a sequence of digits stands for.
pub open spec fn digits_value(s: Seq<char>) -> nat
    decreases s.len(),
{
    if s.len() == 0 {
        0
    } else {
        10 * digits_value(s.drop_last()) + (s.last() as nat - 48) as nat
    }
}

/// Whether a text consists of one or more ASCII digits.
pub open spec fn all_digits(s: Seq<char>) -> bool {
    s.len() > 0 && forall|i: int| 0 <= i < s.len() ==> text::is_digit(#[trigger] s[i])
}

/// A text without one leading plus sign.
pub open spec fn unsigned_part(s: Seq<char>) -> Seq<char> {
    if s.len() > 0 && s[0] == '+' {
        s.skip(1)
    } else {
        s
    }
}

/// The number that a text stands for: an optional plus sign and then only digits, and not
/// above `max`.
pub open spec fn parsed(s: Seq<char>, max: nat) -> Option<nat> {
    if all_digits(unsigned_part(s)) && digits_value(unsigned_part(s)) <= max {
        Some(digits_value(unsigned_part(s)))
    } else {
        None
    }
}

/// The digit for a number below ten.
fn digit_char(d: u8) -> (c: char)
    requires
        d < 10,
    ensures
        c == digit(d as int),
        text::is_digit(c),
{
    (48 + d) as char
}

/// Writes a number in decimal.
pub fn decimal_text(n: u64) -> (r: String)
    ensures
        r@ == decimal(n as nat),
{
    wide_decimal_text(n as u128)
}

/// Writes a number of up to 128 bits in decimal.
pub fn wide_decimal_text(n: u128) -> (r: String)
    ensures
        r@ == decimal(n as nat),
    decreases n,
{
    let mut out: String = if n < 10 {
        String::new()
    } else {
        wide_decimal_text(n / 10)
    };
    out.push(digit_char((n % 10) as u8));
    proof {
        if n < 10 {
            assert(out@ =~= decimal(n as nat));
        }
    }
    out
}

/// Writes a signed number in decimal.
pub fn signed_text(n: i64) -> (r: String)
    ensures
        r@ == signed_decimal(n as int),
{
    if n >= 0 {
        decimal_text(n as u64)
    } else {
        let size: u64 = (-(n + 1)) as u64 + 1;
        cat2_sign(&decimal_text(size))
    }
}

/// A minus sign before a number.
fn cat2_sign(digits: &str) -> (r: String)
    ensures
        r@ == seq!['-'] + digits@,
{
    let mut out: String = String::new();
    out.push('-');
    out.append(digits);
    proof {
        assert(Seq::<char>::empty().push('-') =~= seq!['-']);
    }
    out
}

/// A longer run of digits never stands for a smaller number.
proof fn lemma_prefix_value(s: Seq<char>, i: int)
    requires
        0 <= i <= s.len(),
    ensures
        digits_value(s.take(i)) <= digits_value(s),
    decreases s.len() - i,
{
    if i < s.len() {
        assert(s.take(i + 1).drop_last() =~= s.take(i));
        lemma_prefix_value(s, i + 1);
    } else {
        assert(s.take(i) =~= s);
    }
}

/// Reads a number: an optional plus sign and then only digits, and not above `max`.
pub fn parse_number(s: &str, max: u32) -> (r: Option<u32>)
    ensures
        match r {
            Some(v) => parsed(s@, max as nat) == Some(v as nat),
            None => parsed(s@, max as nat) is None,
        },
{
    let chars: Vec<char> = text::chars_of(s);
    let from: usize = if chars.len() > 0 && chars[0] == '+' {
        1
    } else {
        0
    };
    let ghost body = unsigned_part(s@);
    proof {
        assert(body =~= s@.skip(from as int));
    }
    if from == chars.len() {
        return None;
    }
    let mut value: u64 = 0;
    let mut i: usize = from;
    proof {
        assert(body.take(0) =~= Seq::<char>::empty());
    }
    while i < chars.len()
        invariant
            from <= i <= chars@.len(),
            chars@ == s@,
            body == s@.skip(from as int),
            body == unsigned_part(s@),
            value <= max,
            value == digits_value(body.take(i - from)),
            forall|k: int| 0 <= k < i - from ==> text::is_digit(#[trigger] body[k]),
        decreases chars@.len() - i,
    {
        let c: char = chars[i];
        assert(c == body[i - from]);
        if !text::is_digit_char(c) {
            return None;
        }
        let next: u64 = value * 10 + (c as u64 - 48);
        proof {
            assert(body.take(i - from + 1).drop_last() =~= body.take(i - from));
        }
        if next > max as u64 {
            proof {
                lemma_prefix_value(body, i - from + 1);
            }
            return None;
        }
        value = next;
        i = i + 1;
    }
    proof {
        assert(body.take(body.len() as int) =~= body);
    }
    Some(value as u32)
}

/// Reading back a written number gives the number.
pub proof fn law_decimal_round_trip(n: nat, max: nat)
    requires
        n <= max,
    ensures
        parsed(decimal(n), max) == Some(n),
{
    lemma_decimal_digits(n);
    assert(text::is_digit(decimal(n)[0]));
    assert(unsigned_part(decimal(n)) == decimal(n));
}

/// The decimal form of a number consists of digits that stand for it.
pub proof fn lemma_decimal_digits(n: nat)
    ensures
        all_digits(decimal(n)),
        digits_value(decimal(n)) == n,
    decreases n,
{
    if n >= 10 {
        lemma_decimal_digits(n / 10);
        assert(decimal(n).drop_last() =~= decimal(n / 10));
        assert(digit((n % 10) as int) as nat == 48 + n % 10);
    } else {
        assert(decimal(n).drop_last() =~= Seq::<char>::empty());
        assert(digits_value(decimal(n).drop_last()) == 0);
        assert(digit(n as int) as nat == 48 + n);
    }
}

/// A number is written without a leading zero, and zero as one digit; a negative one has a minus sign
/// before its digits.
pub proof fn law_numbers_are_written_plainly(n: nat)
    ensures
        n > 0 ==> decimal(n)[0] != '0',
        decimal(0) == seq!['0'],
        n > 0 ==> signed_decimal(-n) == seq!['-'] + decimal(n),
        signed_decimal(n as int) == decimal(n),
    decreases n,
{
    assert(decimal(0) =~= seq!['0']);
    if n >= 10 {
        law_numbers_are_written_plainly(n / 10);
        lemma_decimal_digits(n / 10);
    }
}

/// What is read as a number is its digits, with one plus sign before them or none, and not above the
/// limit; a text that holds anything else is none, and neither is an empty one.
pub proof fn law_only_digits_are_numbers(s: Seq<char>, max: nat, at: int)
    ensures
        s.len() == 0 ==> parsed(s, max) is None,
        1 <= at < s.len() && !('0' <= s[at] <= '9') ==> parsed(s, max) is None,
        s.len() > 0 && !('0' <= s[0] <= '9') && s[0] != '+' ==> parsed(s, max) is None,
        parsed(s, max) matches Some(n) ==> n <= max,
{
    let part = unsigned_part(s);
    if 1 <= at < s.len() && !('0' <= s[at] <= '9') {
        if s[0] == '+' {
            assert(part[at - 1] == s[at]);
        } else {
            assert(part[at] == s[at]);
        }
    }
    if s.len() > 0 && !('0' <= s[0] <= '9') && s[0] != '+' {
        assert(part[0] == s[0]);
    }
}

} // verus!
