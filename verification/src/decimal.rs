//! Ports as decimal text.

use vstd::prelude::*;
use vstd::string::*;

verus! {

/// Whether `c` is one of `0` to `9`.
pub open spec fn is_digit(c: char) -> bool {
    '0' <= c <= '9'
}

/// The digit that `c` denotes.
pub open spec fn digit_value(c: char) -> nat
    recommends
        is_digit(c),
{
    (c as u32 - '0' as u32) as nat
}

/// The character for the digit `d`.
pub open spec fn digit_char(d: nat) -> char
    recommends
        d < 10,
{
    seq!['0', '1', '2', '3', '4', '5', '6', '7', '8', '9'][d as int]
}

/// Whether `s` is made of digits only.
pub open spec fn all_digits(s: Seq<char>) -> bool {
    forall|i: int| 0 <= i < s.len() ==> is_digit(#[trigger] s[i])
}

/// The number that the digits of `s` spell, most significant first.
pub open spec fn digits_value(s: Seq<char>) -> nat
    decreases s.len(),
{
    if s.len() == 0 {
        0
    } else {
        10 * digits_value(s.drop_last()) + digit_value(s.last())
    }
}

/// The shortest decimal spelling of `n`.
pub open spec fn decimal_text(n: nat) -> Seq<char>
    decreases n,
{
    if n < 10 {
        seq![digit_char(n)]
    } else {
        decimal_text(n / 10).push(digit_char(n % 10))
    }
}

/// The port that a run of digits spells: at least one digit and nothing
/// else, with a value of at most 65535.
pub open spec fn port_of_digits(digits: Seq<char>) -> Option<u16> {
    if digits.len() > 0 && all_digits(digits) && digits_value(digits) <= u16::MAX {
        Some(digits_value(digits) as u16)
    } else {
        None
    }
}

/// The port that `s` spells, if it spells one: an optional `+`, then the
/// digits of a port.
pub open spec fn port_of_text(s: Seq<char>) -> Option<u16> {
    if s.len() > 0 && s[0] == '+' {
        port_of_digits(s.subrange(1, s.len() as int))
    } else {
        port_of_digits(s)
    }
}

/// A decimal spelling is made of digits, is not empty, and spells its number.
pub proof fn decimal_text_spells(n: nat)
    ensures
        decimal_text(n).len() > 0,
        all_digits(decimal_text(n)),
        digits_value(decimal_text(n)) == n,
    decreases n,
{
    if n < 10 {
        let s = decimal_text(n);
        assert(s.drop_last() =~= Seq::<char>::empty());
        assert(digits_value(s.drop_last()) == 0);
    } else {
        decimal_text_spells(n / 10);
        let s = decimal_text(n);
        assert(s.drop_last() =~= decimal_text(n / 10));
        assert(s.last() == digit_char(n % 10));
    }
}

/// Reading the decimal spelling of a port gives the port back.
pub proof fn port_text_roundtrip(port: u16)
    ensures
        port_of_text(decimal_text(port as nat)) == Some(port),
{
    decimal_text_spells(port as nat);
    let s = decimal_text(port as nat);
    assert(is_digit(s[0]));
}

/// Extending a run of digits never lowers the number it spells.
proof fn digits_value_grows(s: Seq<char>, k: int)
    requires
        0 <= k <= s.len(),
    ensures
        digits_value(s.take(k)) <= digits_value(s),
    decreases s.len() - k,
{
    if k == s.len() {
        assert(s.take(k) =~= s);
    } else {
        digits_value_grows(s.drop_last(), k);
        assert(s.drop_last().take(k) =~= s.take(k));
    }
}

/// The one-character text of a digit.
fn digit_str(d: u8) -> (s: &'static str)
    requires
        d < 10,
    ensures
        s@ == seq![digit_char(d as nat)],
{
    proof {
        reveal_strlit("0");
        reveal_strlit("1");
        reveal_strlit("2");
        reveal_strlit("3");
        reveal_strlit("4");
        reveal_strlit("5");
        reveal_strlit("6");
        reveal_strlit("7");
        reveal_strlit("8");
        reveal_strlit("9");
    }
    let s = match d {
        0 => "0",
        1 => "1",
        2 => "2",
        3 => "3",
        4 => "4",
        5 => "5",
        6 => "6",
        7 => "7",
        8 => "8",
        _ => "9",
    };
    assert(s@ =~= seq![digit_char(d as nat)]);
    s
}

/// Writes a port in decimal, without sign or leading zeros.
pub fn port_string(port: u16) -> (text: String)
    ensures
        text@ == decimal_text(port as nat),
    decreases port,
{
    if port < 10 {
        String::from_str(digit_str(port as u8))
    } else {
        let mut text = port_string(port / 10);
        let last = digit_str((port % 10) as u8);
        text.append(last);
        assert(text@ =~= decimal_text((port / 10) as nat).push(digit_char((port % 10) as nat)));
        text
    }
}

/// Reads a port from the characters of `chars` from `start` on, as
/// [`port_of_text`] defines it.
pub fn parse_port(chars: &Vec<char>, start: usize) -> (port: Option<u16>)
    requires
        start <= chars.len(),
    ensures
        port == port_of_text(chars@.subrange(start as int, chars.len() as int)),
{
    let ghost text = chars@.subrange(start as int, chars.len() as int);
    let mut at: usize = start;
    if at < chars.len() && chars[at] == '+' {
        at = at + 1;
    }
    let ghost digits = chars@.subrange(at as int, chars.len() as int);
    assert(port_of_text(text) == port_of_digits(digits)) by {
        if at > start {
            assert(text[0] == '+');
            assert(digits =~= text.subrange(1, text.len() as int));
        } else {
            assert(digits =~= text);
            assert(text.len() > 0 ==> text[0] == chars[start as int]);
        }
    }
    if at == chars.len() {
        return None;
    }
    let first: usize = at;
    let mut value: u32 = 0;
    while at < chars.len()
        invariant
            first <= at <= chars.len(),
            digits == chars@.subrange(first as int, chars.len() as int),
            port_of_digits(digits) == port_of_text(
                chars@.subrange(start as int, chars.len() as int),
            ),
            all_digits(digits.take(at - first)),
            value == digits_value(digits.take(at - first)),
            value <= u16::MAX,
        decreases chars.len() - at,
    {
        let c = chars[at];
        if !('0' <= c && c <= '9') {
            assert(!is_digit(digits[at - first]));
            return None;
        }
        let d: u32 = c as u32 - '0' as u32;
        let ghost longer = digits.take(at - first + 1);
        assert(longer.drop_last() =~= digits.take(at - first));
        assert(longer.last() == c);
        assert(all_digits(longer)) by {
            assert forall|i: int| 0 <= i < longer.len() implies is_digit(#[trigger] longer[i]) by {
                if i < at - first {
                    assert(longer[i] == digits.take(at - first)[i]);
                }
            }
        }
        value = value * 10 + d;
        if value > 65535 {
            proof {
                if all_digits(digits) {
                    digits_value_grows(digits, at - first + 1);
                }
            }
            return None;
        }
        at = at + 1;
    }
    assert(digits.take(at - first) =~= digits);
    Some(value as u16)
}

} // verus!
