//! What holds of the decoding of messages.

use vstd::prelude::*;

use crate::dpi::{
    DPI_AWARENESS_CONTEXT_PER_MONITOR_AWARE, DPI_AWARENESS_CONTEXT_PER_MONITOR_AWARE_V2,
};
use crate::event::{Keys, MouseButton};
use crate::geometry::{PhyPoint, PhySize};
use crate::message::{decoded, point_of, size_of, Message};
use crate::win32::{
    as_signed_long, as_signed_word, Hwnd, BV_WINDOW_MUST_CLOSE, CS_OWNDC, DEFAULT_DPI,
    FRAME_INTERVAL, HTCLIENT, SWP_NOACTIVATE, SWP_NOMOVE, SWP_NOZORDER, WHEEL_DELTA, WIN_FRAME_TIMER, WM_CHAR,
    WM_CLOSE, WM_CREATE, WM_DPICHANGED, WM_DPICHANGED_AFTERPARENT, WM_INPUTLANGCHANGE, WM_KEYDOWN,
    WM_KEYUP, WM_LBUTTONDOWN, WM_LBUTTONUP, WM_MBUTTONDOWN, WM_MBUTTONUP, WM_MOUSEHWHEEL,
    WM_MOUSELEAVE, WM_MOUSEMOVE, WM_MOUSEWHEEL, WM_NCDESTROY, WM_RBUTTONDOWN, WM_RBUTTONUP,
    WM_SETCURSOR, WM_SHOWWINDOW, WM_SIZE, WM_SYSCHAR, WM_SYSKEYDOWN, WM_SYSKEYUP, WM_TIMER,
    WM_USER, WM_XBUTTONDOWN, WM_XBUTTONUP, WS_BORDER, WS_CAPTION, WS_CHILD, WS_CLIPSIBLINGS,
    WS_MAXIMIZEBOX, WS_MINIMIZEBOX, WS_POPUP, WS_SIZEBOX, WS_SYSMENU, WS_VISIBLE, XBUTTON1,
    XBUTTON2,
};

verus! {

/// Two words, the second of them the higher one.
pub open spec fn packed(low: u16, high: u16) -> int {
    low + 0x1_0000 * high
}

/// A mouse message holds a point whose coordinates are signed 16-bit numbers, as they are: also a
/// point to the left of the window or above it.
pub proof fn packed_point_is_read_back(x: i16, y: i16, wparam: usize, lparam: isize)
    requires
        (lparam as u32) as int == packed(x as u16, y as u16),
    ensures
        point_of(lparam) == (PhyPoint { x: x as i32, y: y as i32 }),
        decoded(WM_MOUSEMOVE, wparam, lparam) == (Message::MouseMove {
            position: PhyPoint { x: x as i32, y: y as i32 },
            keys: Keys { wparam },
        }),
{
    assert((x >= 0 ==> (x as u16) == x) && (x < 0 ==> (x as u16) == x + 0x1_0000)) by (bit_vector);
    assert((y >= 0 ==> (y as u16) == y) && (y < 0 ==> (y as u16) == y + 0x1_0000)) by (bit_vector);
}

/// A size message holds a size whose extents are unsigned 16-bit numbers.
pub proof fn packed_size_is_read_back(width: u16, height: u16, wparam: usize, lparam: isize)
    requires
        (lparam as u32) as int == packed(width, height),
    ensures
        size_of(lparam) == (PhySize { width: width as u32, height: height as u32 }),
        decoded(WM_SIZE, wparam, lparam) == Message::Size(
            PhySize { width: width as u32, height: height as u32 },
        ),
{
}

/// The numbers that the system and the library agree on.
pub proof fn numbers_are_those_of_the_system()
    ensures
        WM_CREATE == 0x01 && WM_SIZE == 0x05 && WM_CLOSE == 0x10 && WM_SHOWWINDOW == 0x18,
        WM_SETCURSOR == 0x20 && WM_INPUTLANGCHANGE == 0x51 && WM_NCDESTROY == 0x82,
        WM_KEYDOWN == 0x100 && WM_KEYUP == 0x101 && WM_CHAR == 0x102,
        WM_SYSKEYDOWN == 0x104 && WM_SYSKEYUP == 0x105 && WM_SYSCHAR == 0x106,
        WM_TIMER == 0x113 && WM_MOUSEMOVE == 0x200,
        WM_LBUTTONDOWN == 0x201 && WM_LBUTTONUP == 0x202,
        WM_RBUTTONDOWN == 0x204 && WM_RBUTTONUP == 0x205,
        WM_MBUTTONDOWN == 0x207 && WM_MBUTTONUP == 0x208,
        WM_MOUSEWHEEL == 0x20A && WM_XBUTTONDOWN == 0x20B && WM_XBUTTONUP == 0x20C,
        WM_MOUSEHWHEEL == 0x20E && WM_MOUSELEAVE == 0x2A3,
        WM_DPICHANGED == 0x2E0 && WM_DPICHANGED_AFTERPARENT == 0x2E3,
        WM_USER == 0x400 && BV_WINDOW_MUST_CLOSE == 0x401,
        XBUTTON1 == 1 && XBUTTON2 == 2 && HTCLIENT == 1 && WHEEL_DELTA == 120,
        DEFAULT_DPI == 96 && WIN_FRAME_TIMER == 4242 && FRAME_INTERVAL == 15 && CS_OWNDC == 0x20,
        SWP_NOMOVE == 0x02 && SWP_NOZORDER == 0x04 && SWP_NOACTIVATE == 0x10,
        WS_POPUP == 0x8000_0000 && WS_CHILD == 0x4000_0000 && WS_VISIBLE == 0x1000_0000,
        WS_CLIPSIBLINGS == 0x0400_0000 && WS_CAPTION == 0x00C0_0000 && WS_BORDER == 0x0080_0000,
        WS_SYSMENU == 0x0008_0000 && WS_SIZEBOX == 0x0004_0000,
        WS_MINIMIZEBOX == 0x0002_0000 && WS_MAXIMIZEBOX == 0x0001_0000,
        DPI_AWARENESS_CONTEXT_PER_MONITOR_AWARE == -3,
        DPI_AWARENESS_CONTEXT_PER_MONITOR_AWARE_V2 == -4,
        Hwnd::null().address == 0,
{
}

/// A signed reading of a word keeps its bits: it is in the signed range and differs from the word
/// by nothing or by the whole range.
pub proof fn signed_readings_keep_the_bits(word: u16, long: u32)
    ensures
        -0x8000 <= as_signed_word(word as int) < 0x8000,
        (as_signed_word(word as int) - word) % 0x1_0000 == 0,
        -0x8000_0000 <= as_signed_long(long as int) < 0x8000_0000,
        (as_signed_long(long as int) - long) % 0x1_0000_0000 == 0,
{
}

/// The button that a mouse message is about, and whether it went down, by the message's number
/// and the high word of `wparam`.
pub open spec fn button_by_number(msg: u32, high: u16) -> Option<(MouseButton, bool)> {
    match (msg, high) {
        (0x201, _) => Some((MouseButton::Left, true)),
        (0x202, _) => Some((MouseButton::Left, false)),
        (0x204, _) => Some((MouseButton::Right, true)),
        (0x205, _) => Some((MouseButton::Right, false)),
        (0x207, _) => Some((MouseButton::Middle, true)),
        (0x208, _) => Some((MouseButton::Middle, false)),
        (0x20B, 1) => Some((MouseButton::Back, true)),
        (0x20B, 2) => Some((MouseButton::Forward, true)),
        (0x20C, 1) => Some((MouseButton::Back, false)),
        (0x20C, 2) => Some((MouseButton::Forward, false)),
        _ => None,
    }
}

/// Each of the four messages of a button going down is read as a press, and each of the four of a
/// button going up as a release, of the button that the number or the high word of `wparam` names.
/// No other message is one of a named button.
pub proof fn buttons_are_read_by_number(
    msg: u32,
    wparam: usize,
    lparam: isize,
    low: u16,
    high: u16,
)
    requires
        (wparam as u32) as int == packed(low, high),
    ensures
        ({
            let keys = Keys { wparam };
            let message = decoded(msg, wparam, lparam);
            &&& button_by_number(msg, high) matches Some((button, pressed)) ==> message
                == (Message::Button { button: Some(button), pressed, keys })
            &&& button_by_number(msg, high) is None ==> !(message matches Message::Button {
                button: Some(_),
                ..
            })
            &&& (msg == WM_XBUTTONDOWN || msg == WM_XBUTTONUP) && high != 1 && high != 2 ==> message
                == (Message::Button { button: None, pressed: msg == WM_XBUTTONDOWN, keys })
        }),
{
}

/// A wheel message holds its amount as a signed number in the high word of `wparam`. Its number
/// tells the axis.
pub proof fn wheel_is_read_by_number(
    wparam: usize,
    lparam: isize,
    low: u16,
    amount: i16,
)
    requires
        (wparam as u32) as int == packed(low, amount as u16),
    ensures
        decoded(WM_MOUSEWHEEL, wparam, lparam) == (Message::Wheel {
            vertical: true,
            amount: amount as i32,
            keys: Keys { wparam },
        }),
        decoded(WM_MOUSEHWHEEL, wparam, lparam) == (Message::Wheel {
            vertical: false,
            amount: amount as i32,
            keys: Keys { wparam },
        }),
{
    assert((amount >= 0 ==> (amount as u16) == amount) && (amount < 0 ==> (amount as u16) == amount
        + 0x1_0000)) by (bit_vector);
}

/// The messages that say all they say by their number, and the timer.
pub proof fn plain_messages_are_read_by_number(wparam: usize, lparam: isize)
    ensures
        decoded(WM_MOUSELEAVE, wparam, lparam) == Message::MouseLeave,
        decoded(WM_TIMER, wparam, lparam) == (Message::Timer { id: wparam }),
        decoded(WM_CLOSE, wparam, lparam) == Message::Close,
        decoded(BV_WINDOW_MUST_CLOSE, wparam, lparam) == Message::MustClose,
        decoded(WM_DPICHANGED_AFTERPARENT, wparam, lparam) == Message::DpiChangedAfterParent,
        decoded(WM_SYSKEYDOWN, wparam, lparam) == (Message::Keyboard { system_key_down: true }),
        forall|msg: u32|
            is_other_keyboard_message(msg) ==> #[trigger] decoded(msg, wparam, lparam)
                == (Message::Keyboard { system_key_down: false }),
        forall|msg: u32|
            !is_known(msg) ==> #[trigger] decoded(msg, wparam, lparam) == Message::Other,
{
}

/// A keyboard message other than that of a system key going down.
pub open spec fn is_other_keyboard_message(msg: u32) -> bool {
    ||| msg == 0x51
    ||| 0x100 <= msg <= 0x102
    ||| 0x105 <= msg <= 0x106
}

/// The window has something to say about messages of this number.
pub open spec fn is_known(msg: u32) -> bool {
    ||| msg == 0x05 || msg == 0x10 || msg == 0x20 || msg == 0x104 || is_other_keyboard_message(msg)
    ||| msg == 0x113 || 0x200 <= msg <= 0x202 || 0x204 <= msg <= 0x205 || 0x207 <= msg <= 0x208
    ||| 0x20A <= msg <= 0x20C || msg == 0x20E || msg == 0x2A3 || msg == 0x2E0 || msg == 0x2E3
    ||| msg == 0x401
}

/// A change of DPI holds the DPI in the low word of `wparam`, and a question for the cursor the
/// place of the pointer in the low word of `lparam`.
pub proof fn low_words_are_read(
    wparam: usize,
    lparam: isize,
    dpi: u16,
    other_dpi: u16,
    place: u16,
    high: u16,
)
    requires
        (wparam as u32) as int == packed(dpi, other_dpi),
        (lparam as u32) as int == packed(place, high),
    ensures
        decoded(WM_DPICHANGED, wparam, lparam) == (Message::DpiChanged { dpi: dpi as u32 }),
        decoded(WM_SETCURSOR, wparam, lparam) == (Message::SetCursor {
            in_client_area: place == 1,
        }),
{
}

} // verus!
