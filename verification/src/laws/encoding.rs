//! What holds of texts in the forms that the system takes them in.

use vstd::prelude::*;

use crate::text::{char_units, hex, hex_byte, hex_digit, units, wide};

verus! {

/// The unit is the second one of a pair.
pub open spec fn is_low_surrogate(unit: u16) -> bool {
    0xDC00 <= unit < 0xE000
}

/// The code points that units of UTF-16 stand for.
pub open spec fn code_points(encoded: Seq<u16>) -> Seq<int>
    decreases encoded.len(),
{
    if encoded.len() == 0 {
        seq![]
    } else if is_low_surrogate(encoded.last()) && encoded.len() >= 2 {
        let high = encoded[encoded.len() - 2];
        code_points(encoded.take(encoded.len() - 2)).push(
            0x1_0000 + (high - 0xD800) * 0x400 + (encoded.last() - 0xDC00),
        )
    } else {
        code_points(encoded.drop_last()).push(encoded.last() as int)
    }
}

/// The code points of a text.
pub open spec fn codes(text: Seq<char>) -> Seq<int> {
    Seq::new(text.len(), |i: int| text[i] as int)
}

/// A character is its own unit, or else a pair that stands for it.
pub proof fn character_is_encoded(c: char)
    ensures
        (c as int) < 0x1_0000 ==> char_units(c).len() == 1 && char_units(c)[0] == c as int,
        c as int >= 0x1_0000 ==> {
            let pair = char_units(c);
            &&& pair.len() == 2
            &&& 0xD800 <= pair[0] < 0xDC00
            &&& is_low_surrogate(pair[1])
            &&& 0x1_0000 + (pair[0] - 0xD800) * 0x400 + (pair[1] - 0xDC00) == c as int
        },
        (c as int) < 0x1_0000 ==> !is_low_surrogate(char_units(c)[0]),
{
}

/// A text is read back from its units, character by character.
pub proof fn text_is_read_back(text: Seq<char>)
    ensures
        code_points(units(text)) == codes(text),
    decreases text.len(),
{
    if text.len() > 0 {
        let rest = text.drop_last();
        let c = text.last();
        text_is_read_back(rest);
        character_is_encoded(c);
        let encoded = units(text);
        assert(encoded == units(rest) + char_units(c));
        if (c as int) < 0x1_0000 {
            assert(encoded.drop_last() == units(rest));
        } else {
            assert(encoded.take(encoded.len() - 2) == units(rest));
        }
        assert(codes(text) == codes(rest).push(c as int));
    }
}

/// A text for the system is the text in UTF-16 and then a single zero.
pub proof fn wide_text_is_the_text_and_a_zero(text: Seq<char>)
    ensures
        wide(text).len() > 0,
        wide(text).last() == 0,
        code_points(wide(text).drop_last()) == codes(text),
{
    text_is_read_back(text);
    assert(wide(text).drop_last() == units(text));
}

/// The value of a hexadecimal digit.
pub open spec fn digit_value(c: char) -> int {
    if c as int >= 0x41 {
        c as int - 0x41 + 10
    } else {
        c as int - 0x30
    }
}

/// The character is a digit, or a letter from A to F.
pub open spec fn is_hex_digit(c: char) -> bool {
    0x30 <= c as int <= 0x39 || 0x41 <= c as int <= 0x46
}

/// The number that a text in hexadecimal stands for.
pub open spec fn hex_value(text: Seq<char>) -> int
    decreases text.len(),
{
    if text.len() == 0 {
        0
    } else {
        hex_value(text.drop_last()) * 16 + digit_value(text.last())
    }
}

/// A number is read back from its digits, the first of which is not a zero unless it is the only
/// one.
pub proof fn number_is_read_back(n: nat)
    ensures
        hex_value(hex(n)) == n,
        hex(n).len() > 0,
        hex(n)[0] == '0' ==> hex(n).len() == 1,
        forall|i: int| 0 <= i < hex(n).len() ==> is_hex_digit(#[trigger] hex(n)[i]),
    decreases n,
{
    if n < 16 {
        assert(hex(n).drop_last().len() == 0);
        assert(hex_value(hex(n).drop_last()) == 0);
        assert(digit_value(hex_digit(n as int)) == n);
    } else {
        number_is_read_back(n / 16);
        assert(hex(n).drop_last() == hex(n / 16));
        assert(digit_value(hex_digit((n % 16) as int)) == n % 16);
        assert(hex(n)[0] == hex(n / 16)[0]);
        if hex(n)[0] == '0' {
            assert(hex_value(hex(n / 16)) == 0) by {
                assert(hex_value(hex(n / 16).drop_last()) == 0) by {
                    assert(hex(n / 16).drop_last().len() == 0);
                }
            }
        }
        assert forall|i: int| 0 <= i < hex(n).len() implies is_hex_digit(#[trigger] hex(n)[i]) by {
            if i < hex(n / 16).len() {
                assert(hex(n)[i] == hex(n / 16)[i]);
            }
        }
    }
}

/// A byte is read back from its two digits.
pub proof fn byte_is_read_back(b: u8)
    ensures
        hex_byte(b).len() == 2,
        is_hex_digit(hex_byte(b)[0]),
        is_hex_digit(hex_byte(b)[1]),
        digit_value(hex_byte(b)[0]) * 16 + digit_value(hex_byte(b)[1]) == b,
{
}

} // verus!
