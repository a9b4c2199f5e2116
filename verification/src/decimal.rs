//! Port numbers as decimal text: reading one and writing one.

use crate::text::Span;
use vstd::prelude::*;
use vstd::string::StringExecFns;

verus! {

/// `c` is one of the ten decimal digits.
pub open spec fn is_digit(c: char) -> bool {
    0x30 <= c as u32 <= 0x39
}

/// The number that a digit stands for.
pub open spec fn digit_value(c: char) -> nat {
    (c as u32 - 0x30) as nat
}

/// The digit that stands for a number below ten.
pub open spec fn digit_char(d: nat) -> char {
    if d == 0 {
        '0'
    } else if d == 1 {
        '1'
    } else if d == 2 {
        '2'
    } else if d == 3 {
        '3'
    } else if d == 4 {
        '4'
    } else if d == 5 {
        '5'
    } else if d == 6 {
        '6'
    } else if d == 7 {
        '7'
    } else if d == 8 {
        '8'
    } else {
        '9'
    }
}

/// Every character of `s` is a digit.
pub open spec fn all_digits(s: Seq<char>) -> bool {
    forall|i: int| 0 <= i < s.len() ==> is_digit(#[trigger] s[i])
}

/// The number that a run of digits writes in base ten.
pub open spec fn decimal_value(digits: Seq<char>) -> nat
    decreases digits.len(),
{
    if digits.len() == 0 {
        0
    } else {
        decimal_value(digits.drop_last()) * 10 + digit_value(digits.last())
    }
}

/// The digits of `s`: what follows a plus sign at its start, else all of
/// it.
pub open spec fn unsigned_part(s: Seq<char>) -> Seq<char> {
    if s.len() > 0 && s[0] == '+' {
        s.drop_first()
    } else {
        s
    }
}

/// The port that `s` writes: one digit or more, after at most one plus
/// sign, with nothing else around them and a value that fits sixteen bits.
pub open spec fn parse_u16(s: Seq<char>) -> Option<u16> {
    let digits = unsigned_part(s);
    if digits.len() > 0 && all_digits(digits) && decimal_value(digits) <= u16::MAX {
        Some(decimal_value(digits) as u16)
    } else {
        None
    }
}

/// `n` in base ten, without leading zeros.
pub open spec fn decimal_text(n: nat) -> Seq<char>
    decreases n,
{
    if n < 10 {
        seq![digit_char(n)]
    } else {
        decimal_text(n / 10).push(digit_char(n % 10))
    }
}

/// One more digit behind a run of digits: the value is ten times what it
/// was, plus the digit.
pub proof fn lemma_decimal_value_push(seen: Seq<char>, c: char)
    requires
        all_digits(seen),
        is_digit(c),
    ensures
        all_digits(seen.push(c)),
        decimal_value(seen.push(c)) == decimal_value(seen) * 10 + digit_value(c),
{
    let more = seen.push(c);
    assert(more.drop_last() =~= seen);
    assert(more.last() == c);
    assert forall|i: int| 0 <= i < more.len() implies is_digit(#[trigger] more[i]) by {
        if i < seen.len() {
            assert(more[i] == seen[i]);
        }
    }
}

/// Reads the port that a span writes.
pub fn parse_port(text: &Vec<char>, span: Span) -> (port: Option<u16>)
    requires
        span.within(text@.len()),
    ensures
        port == parse_u16(span.of(text@)),
{
    let mut at: usize = span.start;
    if at < span.end && text[at] == '+' {
        at += 1;
    }
    let first = at;
    let ghost digits = text@.subrange(first as int, span.end as int);
    assert(digits =~= unsigned_part(span.of(text@)));
    if at == span.end {
        return None;
    }
    let mut value: u32 = 0;
    let mut overflow = false;
    let ghost mut seen = Seq::<char>::empty();
    assert(seen =~= digits.take(0));
    while at < span.end
        invariant
            span.within(text@.len()),
            first <= at <= span.end,
            digits == unsigned_part(span.of(text@)),
            digits.len() == span.end - first,
            forall|k: int| 0 <= k < digits.len() ==> digits[k] == text@[first + k],
            seen == digits.take(at - first),
            all_digits(seen),
            !overflow ==> value == decimal_value(seen) && value <= u16::MAX,
            overflow ==> decimal_value(seen) > u16::MAX,
        decreases span.end - at,
    {
        let c: char = text[at];
        let code: u32 = c as u32;
        if code < 0x30 || code > 0x39 {
            assert(digits[at - first] == c);
            assert(!is_digit(digits[at - first]));
            return None;
        }
        proof {
            lemma_decimal_value_push(seen, c);
            assert(seen.push(c) =~= digits.take(at + 1 - first));
            seen = seen.push(c);
        }
        if !overflow {
            value = value * 10 + (code - 0x30);
            if value > 0xFFFF {
                overflow = true;
            }
        }
        at += 1;
    }
    assert(seen =~= digits);
    if overflow {
        None
    } else {
        Some(value as u16)
    }
}

/// The text of one digit.
fn digit_text(d: u16) -> (text: &'static str)
    requires
        d < 10,
    ensures
        text@ == seq![digit_char(d as nat)],
{
    proof {
        reveal_strlit("0");
        reveal_strlit("1");
        reveal_strlit("2");
        reveal_strlit("3");
        reveal_strlit("4");
        reveal_strlit("5");
        reveal_strlit("6");
        reveal_strlit("7");
        reveal_strlit("8");
        reveal_strlit("9");
    }
    let text = if d == 0 {
        "0"
    } else if d == 1 {
        "1"
    } else if d == 2 {
        "2"
    } else if d == 3 {
        "3"
    } else if d == 4 {
        "4"
    } else if d == 5 {
        "5"
    } else if d == 6 {
        "6"
    } else if d == 7 {
        "7"
    } else if d == 8 {
        "8"
    } else {
        "9"
    };
    assert(text@ =~= seq![digit_char(d as nat)]);
    text
}

/// Appends `n` in base ten to `out`.
pub fn push_decimal(out: &mut String, n: u16)
    ensures
        final(out)@ == old(out)@ + decimal_text(n as nat),
    decreases n,
{
    if n >= 10 {
        push_decimal(out, n / 10);
    }
    out.append(digit_text(n % 10));
    proof {
        if n >= 10 {
            assert(old(out)@ + decimal_text(n as nat / 10) + seq![digit_char(n as nat % 10)]
                =~= old(out)@ + decimal_text(n as nat));
        }
    }
}

/// What `decimal_text` writes is made of digits and has the value that was
/// written.
pub proof fn lemma_decimal_text_value(n: nat)
    ensures
        decimal_text(n).len() > 0,
        all_digits(decimal_text(n)),
        decimal_value(decimal_text(n)) == n,
    decreases n,
{
    if n < 10 {
        let text = decimal_text(n);
        assert(text.drop_last() =~= Seq::<char>::empty());
        assert(decimal_value(text.drop_last()) == 0);
    } else {
        lemma_decimal_text_value(n / 10);
        let text = decimal_text(n);
        assert(text.drop_last() =~= decimal_text(n / 10));
        assert(text.last() == digit_char(n % 10));
    }
}

/// A port that was written as decimal text reads back as itself.
pub proof fn lemma_parse_decimal_text(port: u16)
    ensures
        parse_u16(decimal_text(port as nat)) == Some(port),
{
    lemma_decimal_text_value(port as nat);
    let text = decimal_text(port as nat);
    assert(is_digit(text[0]));
    assert(unsigned_part(text) == text);
}

} // verus!
