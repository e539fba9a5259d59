//! Window messages, decoded from their number and their two parameters.

use vstd::prelude::*;

use crate::event::{Keys, MouseButton};
use crate::geometry::{PhyPoint, PhySize};
use crate::win32::{
    as_signed_word, signed_word, BV_WINDOW_MUST_CLOSE, GET_XBUTTON_WPARAM, HIWORD, HTCLIENT,
    LOWORD, WM_CHAR, WM_CLOSE, WM_DPICHANGED, WM_DPICHANGED_AFTERPARENT, WM_INPUTLANGCHANGE,
    WM_KEYDOWN, WM_KEYUP, WM_LBUTTONDOWN, WM_LBUTTONUP, WM_MBUTTONDOWN, WM_MBUTTONUP,
    WM_MOUSEHWHEEL, WM_MOUSELEAVE, WM_MOUSEMOVE, WM_MOUSEWHEEL, WM_RBUTTONDOWN, WM_RBUTTONUP,
    WM_SETCURSOR, WM_SIZE, WM_SYSCHAR, WM_SYSKEYDOWN, WM_SYSKEYUP, WM_TIMER, WM_XBUTTONDOWN,
    WM_XBUTTONUP, XBUTTON1, XBUTTON2,
};

verus! {

/// A message, with what the window procedure reads of its parameters.
#[derive(Debug, Clone, Copy, PartialEq, Eq, Structural)]
pub enum Message {
    MouseMove { position: PhyPoint, keys: Keys },
    MouseLeave,
    Wheel { vertical: bool, amount: i32, keys: Keys },
    /// `button` is `None` for an extra button other than the first two.
    Button { button: Option<MouseButton>, pressed: bool, keys: Keys },
    Timer { id: usize },
    Close,
    Keyboard { system_key_down: bool },
    Size(PhySize),
    DpiChanged { dpi: u32 },
    DpiChangedAfterParent,
    SetCursor { in_client_area: bool },
    MustClose,
    Other,
}

/// The low word of the low 32 bits of a message parameter.
pub open spec fn low_word(parameter: u32) -> int {
    parameter as int % 0x1_0000
}

/// The high word of the low 32 bits of a message parameter.
pub open spec fn high_word(parameter: u32) -> int {
    parameter as int / 0x1_0000
}

/// The point whose signed 16-bit coordinates are the two low words of `lparam`.
pub open spec fn point_of(lparam: isize) -> PhyPoint {
    PhyPoint {
        x: as_signed_word(low_word(lparam as u32)) as i32,
        y: as_signed_word(high_word(lparam as u32)) as i32,
    }
}

/// The size whose unsigned 16-bit extents are the two low words of `lparam`.
pub open spec fn size_of(lparam: isize) -> PhySize {
    PhySize { width: low_word(lparam as u32) as u32, height: high_word(lparam as u32) as u32 }
}

/// The extra button that is named by the high word of `wparam`.
pub open spec fn extra_button_of(wparam: usize) -> Option<MouseButton> {
    if high_word(wparam as u32) == XBUTTON1 {
        Some(MouseButton::Back)
    } else if high_word(wparam as u32) == XBUTTON2 {
        Some(MouseButton::Forward)
    } else {
        None
    }
}

/// What a message says.
pub open spec fn decoded(msg: u32, wparam: usize, lparam: isize) -> Message {
    let keys = Keys { wparam };
    match msg {
        WM_MOUSEMOVE => Message::MouseMove { position: point_of(lparam), keys },
        WM_MOUSELEAVE => Message::MouseLeave,
        WM_MOUSEWHEEL | WM_MOUSEHWHEEL => Message::Wheel {
            vertical: msg == WM_MOUSEWHEEL,
            amount: as_signed_word(high_word(wparam as u32)) as i32,
            keys,
        },
        WM_LBUTTONDOWN | WM_LBUTTONUP => Message::Button {
            button: Some(MouseButton::Left),
            pressed: msg == WM_LBUTTONDOWN,
            keys,
        },
        WM_MBUTTONDOWN | WM_MBUTTONUP => Message::Button {
            button: Some(MouseButton::Middle),
            pressed: msg == WM_MBUTTONDOWN,
            keys,
        },
        WM_RBUTTONDOWN | WM_RBUTTONUP => Message::Button {
            button: Some(MouseButton::Right),
            pressed: msg == WM_RBUTTONDOWN,
            keys,
        },
        WM_XBUTTONDOWN | WM_XBUTTONUP => Message::Button {
            button: extra_button_of(wparam),
            pressed: msg == WM_XBUTTONDOWN,
            keys,
        },
        WM_TIMER => Message::Timer { id: wparam },
        WM_CLOSE => Message::Close,
        WM_CHAR | WM_SYSCHAR | WM_KEYDOWN | WM_SYSKEYDOWN | WM_KEYUP | WM_SYSKEYUP
        | WM_INPUTLANGCHANGE => Message::Keyboard { system_key_down: msg == WM_SYSKEYDOWN },
        WM_SIZE => Message::Size(size_of(lparam)),
        WM_DPICHANGED => Message::DpiChanged { dpi: low_word(wparam as u32) as u32 },
        WM_DPICHANGED_AFTERPARENT => Message::DpiChangedAfterParent,
        WM_SETCURSOR => Message::SetCursor { in_client_area: low_word(lparam as u32) == HTCLIENT },
        BV_WINDOW_MUST_CLOSE => Message::MustClose,
        _ => Message::Other,
    }
}

impl Message {
    /// Reads a message.
    pub fn decode(msg: u32, wparam: usize, lparam: isize) -> (r: Message)
        ensures
            r == decoded(msg, wparam, lparam),
    {
        let keys = Keys { wparam };
        let w: u32 = #[verifier::truncate] (wparam as u32);
        let l: u32 = #[verifier::truncate] (lparam as u32);
        match msg {
            WM_MOUSEMOVE => Message::MouseMove {
                position: PhyPoint { x: signed_word(LOWORD(l)), y: signed_word(HIWORD(l)) },
                keys,
            },
            WM_MOUSELEAVE => Message::MouseLeave,
            WM_MOUSEWHEEL | WM_MOUSEHWHEEL => Message::Wheel {
                vertical: msg == WM_MOUSEWHEEL,
                amount: signed_word(HIWORD(w)),
                keys,
            },
            WM_LBUTTONDOWN | WM_LBUTTONUP => Message::Button {
                button: Some(MouseButton::Left),
                pressed: msg == WM_LBUTTONDOWN,
                keys,
            },
            WM_MBUTTONDOWN | WM_MBUTTONUP => Message::Button {
                button: Some(MouseButton::Middle),
                pressed: msg == WM_MBUTTONDOWN,
                keys,
            },
            WM_RBUTTONDOWN | WM_RBUTTONUP => Message::Button {
                button: Some(MouseButton::Right),
                pressed: msg == WM_RBUTTONDOWN,
                keys,
            },
            WM_XBUTTONDOWN | WM_XBUTTONUP => Message::Button {
                button: match GET_XBUTTON_WPARAM(wparam) {
                    XBUTTON1 => Some(MouseButton::Back),
                    XBUTTON2 => Some(MouseButton::Forward),
                    _ => None,
                },
                pressed: msg == WM_XBUTTONDOWN,
                keys,
            },
            WM_TIMER => Message::Timer { id: wparam },
            WM_CLOSE => Message::Close,
            WM_CHAR | WM_SYSCHAR | WM_KEYDOWN | WM_SYSKEYDOWN | WM_KEYUP | WM_SYSKEYUP
            | WM_INPUTLANGCHANGE => Message::Keyboard { system_key_down: msg == WM_SYSKEYDOWN },
            WM_SIZE => Message::Size(PhySize { width: LOWORD(l) as u32, height: HIWORD(l) as u32 }),
            WM_DPICHANGED => Message::DpiChanged { dpi: LOWORD(w) as u32 },
            WM_DPICHANGED_AFTERPARENT => Message::DpiChangedAfterParent,
            WM_SETCURSOR => Message::SetCursor { in_client_area: LOWORD(l) == HTCLIENT },
            BV_WINDOW_MUST_CLOSE => Message::MustClose,
            _ => Message::Other,
        }
    }
}

} // verus!
