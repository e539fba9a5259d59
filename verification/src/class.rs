//! The window class, which every window has for itself.

use vstd::prelude::*;
use vstd::string::*;

use crate::text::{hex, hex_byte, hex_byte_text, hex_text, push_hex, push_hex_byte, to_wide, wide};
use crate::win32::CS_OWNDC;

verus! {

/// A globally unique identifier, by its parts.
#[derive(Debug, Clone, Copy, PartialEq, Eq)]
pub struct Guid {
    pub data1: u32,
    pub data2: u16,
    pub data3: u16,
    pub data4: [u8; 8],
}

/// The first group of the last part: two bytes, run together.
pub open spec fn clock_text(guid: Guid) -> Seq<char> {
    hex_byte(guid.data4[0]) + hex_byte(guid.data4[1])
}

/// The second group of the last part: six bytes, run together.
pub open spec fn node_text(guid: Guid) -> Seq<char> {
    hex_byte(guid.data4[2]) + hex_byte(guid.data4[3]) + hex_byte(guid.data4[4]) + hex_byte(
        guid.data4[5],
    ) + hex_byte(guid.data4[6]) + hex_byte(guid.data4[7])
}

/// The identifier in hexadecimal. Hyphens part the numbers, which are not padded, from each other;
/// a byte has two digits. A zero character ends the text.
pub open spec fn guid_text(guid: Guid) -> Seq<char> {
    hex(guid.data1 as nat) + seq!['-'] + hex(guid.data2 as nat) + seq!['-'] + hex(
        guid.data3 as nat,
    ) + seq!['-'] + clock_text(guid) + seq!['-'] + node_text(guid) + seq!['\0']
}

/// Writes an identifier that the system has generated as a text.
pub fn generate_guid(guid: &Guid) -> (r: String)
    ensures
        r@ == guid_text(*guid),
{
    proof {
        reveal_strlit("-");
        reveal_strlit("\0");
        assert("-"@ =~= seq!['-']);
        assert("\0"@ =~= seq!['\0']);
    }
    let mut clock = hex_byte_text(guid.data4[0]);
    push_hex_byte(&mut clock, guid.data4[1]);
    let mut node = hex_byte_text(guid.data4[2]);
    push_hex_byte(&mut node, guid.data4[3]);
    push_hex_byte(&mut node, guid.data4[4]);
    push_hex_byte(&mut node, guid.data4[5]);
    push_hex_byte(&mut node, guid.data4[6]);
    push_hex_byte(&mut node, guid.data4[7]);
    let mut text = hex_text(guid.data1);
    text.append("-");
    push_hex(&mut text, guid.data2 as u32);
    text.append("-");
    push_hex(&mut text, guid.data3 as u32);
    text.append("-");
    text.append(clock.as_str());
    text.append("-");
    text.append(node.as_str());
    text.append("\0");
    text
}

/// What a class is registered with. It has a device context of its own, the arrow as its cursor
/// and no background.
#[derive(Debug)]
pub struct WindowClass {
    pub style: u32,
    /// In UTF-16, ended by a zero.
    pub class_name: Vec<u16>,
}

/// The name of the class that is made with the identifier.
pub open spec fn class_name(guid: Guid) -> Seq<u16> {
    wide("Baseview-"@ + guid_text(guid))
}

/// Decides what a new window's class is registered with. The identifier in its name makes the name
/// unique, so that it does not collide with that of another class.
pub fn register_wnd_class(guid: &Guid) -> (r: WindowClass)
    ensures
        r.style == CS_OWNDC,
        r.class_name@ == class_name(*guid),
{
    let class_name_str = "Baseview-".to_owned().concat(generate_guid(guid).as_str());
    WindowClass { style: CS_OWNDC, class_name: to_wide(class_name_str.as_str()) }
}

} // verus!
