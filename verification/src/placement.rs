//! Sizing and placing a window so that its client area has a given size.
//!
//! A window that is not a child has a frame, and only the system knows how thick it is. So the
//! client area's rectangle is handed out to be grown by the frame first, and what comes back
//! decides the window's extents.

use vstd::prelude::*;

use crate::geometry::{PhyPoint, PhySize};
use crate::win32::{as_signed_long, signed_long, Hwnd, Rect, SWP_NOACTIVATE, SWP_NOMOVE, SWP_NOZORDER};

verus! {

/// A wish for a client area of the given size.
#[derive(Debug, Clone, Copy, PartialEq, Eq, Structural)]
pub struct ClientSize {
    pub hwnd: Hwnd,
    pub client_size: PhySize,
    pub dw_style: u32,
    pub parented: bool,
    /// The DPI for which the frame is measured, where it is known.
    pub dpi: Option<u32>,
    /// The corner to move the window to. Without one it stays where it is.
    pub position: Option<PhyPoint>,
}

/// The outer rectangle of a window, or what the system has to be asked for it.
#[derive(Debug, Clone, Copy, PartialEq, Eq, Structural)]
pub enum WindowRect {
    /// There is no frame: this is the rectangle.
    Known(Rect),
    /// `AdjustWindowRectExForDpi`, or `AdjustWindowRectEx` without a DPI, has to grow the
    /// rectangle by the frame of a window of this style that has no menu and no extended style.
    Adjust { rect: Rect, dw_style: u32, dpi: Option<u32> },
}

/// The rectangle of a client area of the given size, with its corner at the origin. An extent
/// beyond the signed range keeps its bits.
pub open spec fn client_rect(client_size: PhySize) -> Rect {
    Rect {
        left: 0,
        top: 0,
        right: as_signed_long(client_size.width as int) as i32,
        bottom: as_signed_long(client_size.height as int) as i32,
    }
}

/// Finds the rectangle of a window from that of its client area. A parented window has no frame.
pub fn client_size_to_window_rect(
    client_size: PhySize,
    dw_style: u32,
    parented: bool,
    dpi: Option<u32>,
) -> (r: WindowRect)
    ensures
        parented ==> r == WindowRect::Known(client_rect(client_size)),
        !parented ==> r == (WindowRect::Adjust { rect: client_rect(client_size), dw_style, dpi }),
{
    let rect = Rect {
        left: 0,
        top: 0,
        right: signed_long(client_size.width),
        bottom: signed_long(client_size.height),
    };
    if parented {
        WindowRect::Known(rect)
    } else {
        WindowRect::Adjust { rect, dw_style, dpi }
    }
}

/// The arguments of a `SetWindowPos` call. The window's place among the others is left alone.
#[derive(Debug, Clone, Copy, PartialEq, Eq, Structural)]
pub struct WindowPos {
    pub hwnd: Hwnd,
    pub x: i32,
    pub y: i32,
    pub width: i32,
    pub height: i32,
    pub flags: u32,
}

/// What sizes a window to the given outer rectangle: it keeps its place in the stack and is not
/// activated, and it is moved only where a position is given.
pub open spec fn window_pos(hwnd: Hwnd, rect: Rect, position: Option<PhyPoint>) -> WindowPos {
    WindowPos {
        hwnd,
        x: match position {
            Some(p) => p.x,
            None => 0,
        },
        y: match position {
            Some(p) => p.y,
            None => 0,
        },
        width: rect.spec_width() as i32,
        height: rect.spec_height() as i32,
        flags: match position {
            Some(_) => SWP_NOZORDER | SWP_NOACTIVATE,
            None => SWP_NOZORDER | SWP_NOACTIVATE | SWP_NOMOVE,
        },
    }
}

/// Decides the `SetWindowPos` call that gives the window the outer rectangle's extents. The
/// extents are those of the rectangle found for the wished client size.
pub fn set_window_client_size(hwnd: Hwnd, rect: Rect, position: Option<PhyPoint>) -> (r: WindowPos)
    requires
        rect.measurable(),
    ensures
        r == window_pos(hwnd, rect, position),
{
    let mut flags: u32 = SWP_NOZORDER | SWP_NOACTIVATE;
    let corner = match position {
        Some(p) => p,
        None => {
            flags = flags | SWP_NOMOVE;
            PhyPoint { x: 0, y: 0 }
        },
    };
    WindowPos {
        hwnd,
        x: corner.x,
        y: corner.y,
        width: rect.width(),
        height: rect.height(),
        flags,
    }
}

impl ClientSize {
    /// The rectangle to ask for.
    pub open spec fn spec_window_rect(self) -> WindowRect {
        if self.parented {
            WindowRect::Known(client_rect(self.client_size))
        } else {
            WindowRect::Adjust {
                rect: client_rect(self.client_size),
                dw_style: self.dw_style,
                dpi: self.dpi,
            }
        }
    }

    /// Finds the window's outer rectangle, or the question to the system that does.
    pub fn window_rect(&self) -> (r: WindowRect)
        ensures
            r == self.spec_window_rect(),
    {
        client_size_to_window_rect(self.client_size, self.dw_style, self.parented, self.dpi)
    }

    /// The call that fulfils the wish, once the outer rectangle is known.
    pub fn window_pos(&self, rect: Rect) -> (r: WindowPos)
        requires
            rect.measurable(),
        ensures
            r == window_pos(self.hwnd, rect, self.position),
    {
        set_window_client_size(self.hwnd, rect, self.position)
    }
}

} // verus!
