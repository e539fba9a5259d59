//! The constants and plain values of the Win32 API that the window logic works with.
//!
//! Handles, message parameters and rectangles are held as integers, so that everything the
//! library decides can be stated and proved about plain values.

use vstd::prelude::*;

verus! {

pub const WM_CREATE: u32 = 0x0001;

pub const WM_SIZE: u32 = 0x0005;

pub const WM_CLOSE: u32 = 0x0010;

pub const WM_SHOWWINDOW: u32 = 0x0018;

pub const WM_SETCURSOR: u32 = 0x0020;

pub const WM_INPUTLANGCHANGE: u32 = 0x0051;

pub const WM_NCDESTROY: u32 = 0x0082;

pub const WM_KEYDOWN: u32 = 0x0100;

pub const WM_KEYUP: u32 = 0x0101;

pub const WM_CHAR: u32 = 0x0102;

pub const WM_SYSKEYDOWN: u32 = 0x0104;

pub const WM_SYSKEYUP: u32 = 0x0105;

pub const WM_SYSCHAR: u32 = 0x0106;

pub const WM_TIMER: u32 = 0x0113;

pub const WM_MOUSEMOVE: u32 = 0x0200;

pub const WM_LBUTTONDOWN: u32 = 0x0201;

pub const WM_LBUTTONUP: u32 = 0x0202;

pub const WM_RBUTTONDOWN: u32 = 0x0204;

pub const WM_RBUTTONUP: u32 = 0x0205;

pub const WM_MBUTTONDOWN: u32 = 0x0207;

pub const WM_MBUTTONUP: u32 = 0x0208;

pub const WM_MOUSEWHEEL: u32 = 0x020A;

pub const WM_XBUTTONDOWN: u32 = 0x020B;

pub const WM_XBUTTONUP: u32 = 0x020C;

pub const WM_MOUSEHWHEEL: u32 = 0x020E;

pub const WM_MOUSELEAVE: u32 = 0x02A3;

pub const WM_DPICHANGED: u32 = 0x02E0;

pub const WM_DPICHANGED_AFTERPARENT: u32 = 0x02E3;

pub const WM_USER: u32 = 0x0400;

/// Posted by a handle or by the window itself to ask for the window's destruction.
pub const BV_WINDOW_MUST_CLOSE: u32 = WM_USER + 1;

/// The first extra mouse button, in the high word of a `WM_XBUTTON*` message's `wparam`.
pub const XBUTTON1: u16 = 1;

/// The second extra mouse button.
pub const XBUTTON2: u16 = 2;

/// The hit-test code of a window's client area.
pub const HTCLIENT: u16 = 1;

/// One line of scrolling, in the units of a wheel message.
pub const WHEEL_DELTA: i32 = 120;

/// The DPI at which one logical pixel is one physical pixel.
pub const DEFAULT_DPI: u32 = 96;

/// Identifies the timer that drives frames.
pub const WIN_FRAME_TIMER: usize = 4242;

/// Milliseconds between two frames.
pub const FRAME_INTERVAL: u32 = 15;

pub const SWP_NOMOVE: u32 = 0x0002;

pub const SWP_NOZORDER: u32 = 0x0004;

pub const SWP_NOACTIVATE: u32 = 0x0010;

pub const WS_POPUP: u32 = 0x8000_0000;

pub const WS_CHILD: u32 = 0x4000_0000;

pub const WS_VISIBLE: u32 = 0x1000_0000;

pub const WS_CLIPSIBLINGS: u32 = 0x0400_0000;

pub const WS_CAPTION: u32 = 0x00C0_0000;

pub const WS_BORDER: u32 = 0x0080_0000;

pub const WS_SYSMENU: u32 = 0x0008_0000;

pub const WS_SIZEBOX: u32 = 0x0004_0000;

pub const WS_MINIMIZEBOX: u32 = 0x0002_0000;

pub const WS_MAXIMIZEBOX: u32 = 0x0001_0000;

pub const CS_OWNDC: u32 = 0x0020;

/// A window handle, by its address. The null handle has the address zero.
#[derive(Debug, Clone, Copy, PartialEq, Eq, Structural)]
pub struct Hwnd {
    pub address: usize,
}

impl Hwnd {
    pub open spec fn null() -> Hwnd {
        Hwnd { address: 0 }
    }

    pub fn is_null(&self) -> (r: bool)
        ensures
            r == (*self == Hwnd::null()),
    {
        self.address == 0
    }
}

/// A rectangle, by its edges.
#[derive(Debug, Clone, Copy, PartialEq, Eq, Structural)]
pub struct Rect {
    pub left: i32,
    pub top: i32,
    pub right: i32,
    pub bottom: i32,
}

impl Rect {
    pub open spec fn spec_width(self) -> int {
        self.right - self.left
    }

    pub open spec fn spec_height(self) -> int {
        self.bottom - self.top
    }

    /// Both extents are representable.
    pub open spec fn measurable(self) -> bool {
        &&& i32::MIN <= self.spec_width() <= i32::MAX
        &&& i32::MIN <= self.spec_height() <= i32::MAX
    }

    /// Whether both extents are representable.
    pub fn is_measurable(&self) -> (r: bool)
        ensures
            r == self.measurable(),
    {
        self.right.checked_sub(self.left).is_some() && self.bottom.checked_sub(self.top).is_some()
    }

    pub fn width(&self) -> (r: i32)
        requires
            self.measurable(),
        ensures
            r == self.spec_width(),
    {
        self.right - self.left
    }

    pub fn height(&self) -> (r: i32)
        requires
            self.measurable(),
        ensures
            r == self.spec_height(),
    {
        self.bottom - self.top
    }
}

/// The number in `0 .. 65536` as a signed 16-bit number with the same bits.
pub open spec fn as_signed_word(word: int) -> int {
    if word < 0x8000 {
        word
    } else {
        word - 0x1_0000
    }
}

/// The number in `0 .. 2^32` as a signed 32-bit number with the same bits.
pub open spec fn as_signed_long(long: int) -> int {
    if long < 0x8000_0000 {
        long
    } else {
        long - 0x1_0000_0000
    }
}

/// The low 16 bits.
#[allow(non_snake_case)]
pub fn LOWORD(l: u32) -> (r: u16)
    ensures
        r as int == l as int % 0x1_0000,
{
    (l % 0x1_0000) as u16
}

/// The high 16 bits.
#[allow(non_snake_case)]
pub fn HIWORD(l: u32) -> (r: u16)
    ensures
        r as int == l as int / 0x1_0000,
{
    (l / 0x1_0000) as u16
}

/// The extra button that a `WM_XBUTTON*` message speaks of.
#[allow(non_snake_case)]
pub fn GET_XBUTTON_WPARAM(wparam: usize) -> (r: u16)
    ensures
        r as int == (wparam as u32) as int / 0x1_0000,
{
    HIWORD(#[verifier::truncate] (wparam as u32))
}

/// A 16-bit word read as a signed number.
pub fn signed_word(word: u16) -> (r: i32)
    ensures
        r == as_signed_word(word as int),
{
    let value: i32 = word as i32;
    if value < 0x8000 {
        value
    } else {
        value - 0x1_0000
    }
}

/// A 32-bit number read as a signed one.
pub fn signed_long(long: u32) -> (r: i32)
    ensures
        r == as_signed_long(long as int),
{
    let value: i64 = long as i64;
    if value < 0x8000_0000 {
        value as i32
    } else {
        (value - 0x1_0000_0000) as i32
    }
}

} // verus!
