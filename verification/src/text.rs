//! Text in the forms that the system takes it in.

use vstd::prelude::*;
use vstd::string::*;

verus! {

/// The UTF-16 code units of a character: itself, or a surrogate pair.
pub open spec fn char_units(c: char) -> Seq<u16> {
    let code = c as int;
    if code < 0x1_0000 {
        seq![code as u16]
    } else {
        seq![
            (0xD800 + (code - 0x1_0000) / 0x400) as u16,
            (0xDC00 + (code - 0x1_0000) % 0x400) as u16,
        ]
    }
}

/// The UTF-16 code units of a text.
pub open spec fn units(text: Seq<char>) -> Seq<u16>
    decreases text.len(),
{
    if text.len() == 0 {
        seq![]
    } else {
        units(text.drop_last()) + char_units(text.last())
    }
}

/// The text in UTF-16, ended by a zero.
pub open spec fn wide(text: Seq<char>) -> Seq<u16> {
    units(text).push(0)
}

/// Encodes a text in UTF-16 and ends it with a zero.
pub fn to_wide(text: &str) -> (r: Vec<u16>)
    ensures
        r@ == wide(text@),
{
    let mut encoded: Vec<u16> = Vec::new();
    let n: usize = text.unicode_len();
    let mut i: usize = 0;
    while i < n
        invariant
            n == text@.len(),
            i <= n,
            encoded@ == units(text@.take(i as int)),
        decreases n - i,
    {
        let c: char = text.get_char(i);
        let code: u32 = c as u32;
        if code < 0x1_0000 {
            encoded.push(code as u16);
        } else {
            encoded.push((0xD800 + (code - 0x1_0000) / 0x400) as u16);
            encoded.push((0xDC00 + (code - 0x1_0000) % 0x400) as u16);
        }
        proof {
            let next = text@.take(i + 1);
            assert(next.drop_last() == text@.take(i as int));
            assert(encoded@ == units(text@.take(i as int)) + char_units(c));
        }
        i += 1;
    }
    assert(text@.take(n as int) == text@);
    encoded.push(0);
    encoded
}

/// An uppercase hexadecimal digit.
pub open spec fn hex_digit(d: int) -> char {
    if d == 0 { '0' }
    else if d == 1 { '1' }
    else if d == 2 { '2' }
    else if d == 3 { '3' }
    else if d == 4 { '4' }
    else if d == 5 { '5' }
    else if d == 6 { '6' }
    else if d == 7 { '7' }
    else if d == 8 { '8' }
    else if d == 9 { '9' }
    else if d == 10 { 'A' }
    else if d == 11 { 'B' }
    else if d == 12 { 'C' }
    else if d == 13 { 'D' }
    else if d == 14 { 'E' }
    else { 'F' }
}

/// A number in uppercase hexadecimal, without leading zeros.
pub open spec fn hex(n: nat) -> Seq<char>
    decreases n,
{
    if n < 16 {
        seq![hex_digit(n as int)]
    } else {
        hex(n / 16).push(hex_digit((n % 16) as int))
    }
}

/// A byte in uppercase hexadecimal, always with two digits.
pub open spec fn hex_byte(b: u8) -> Seq<char> {
    seq![hex_digit(b as int / 16), hex_digit(b as int % 16)]
}

fn hex_digit_text(d: u32) -> (r: &'static str)
    requires
        d < 16,
    ensures
        r@ == seq![hex_digit(d as int)],
{
    proof {
        reveal_strlit("0");
        reveal_strlit("1");
        reveal_strlit("2");
        reveal_strlit("3");
        reveal_strlit("4");
        reveal_strlit("5");
        reveal_strlit("6");
        reveal_strlit("7");
        reveal_strlit("8");
        reveal_strlit("9");
        reveal_strlit("A");
        reveal_strlit("B");
        reveal_strlit("C");
        reveal_strlit("D");
        reveal_strlit("E");
        reveal_strlit("F");
    }
    match d {
        0 => "0",
        1 => "1",
        2 => "2",
        3 => "3",
        4 => "4",
        5 => "5",
        6 => "6",
        7 => "7",
        8 => "8",
        9 => "9",
        10 => "A",
        11 => "B",
        12 => "C",
        13 => "D",
        14 => "E",
        _ => "F",
    }
}

/// Appends a number in uppercase hexadecimal, without leading zeros.
pub fn push_hex(text: &mut String, n: u32)
    ensures
        final(text)@ == old(text)@ + hex(n as nat),
    decreases n,
{
    if n >= 16 {
        push_hex(text, n / 16);
    }
    text.append(hex_digit_text(n % 16));
}

/// A number in uppercase hexadecimal, without leading zeros.
pub fn hex_text(n: u32) -> (r: String)
    ensures
        r@ == hex(n as nat),
{
    let mut text = String::new();
    push_hex(&mut text, n);
    assert(Seq::<char>::empty() + hex(n as nat) == hex(n as nat));
    text
}

/// Appends a byte in uppercase hexadecimal, with two digits.
pub fn push_hex_byte(text: &mut String, b: u8)
    ensures
        final(text)@ == old(text)@ + hex_byte(b),
{
    text.append(hex_digit_text((b / 16) as u32));
    text.append(hex_digit_text((b % 16) as u32));
}

/// A byte in uppercase hexadecimal, with two digits.
pub fn hex_byte_text(b: u8) -> (r: String)
    ensures
        r@ == hex_byte(b),
{
    let mut text = String::new();
    push_hex_byte(&mut text, b);
    text
}

} // verus!
