//! The handle by which the opener of a window knows it.

use vstd::prelude::*;

use crate::action::Action;
use crate::win32::{Hwnd, BV_WINDOW_MUST_CLOSE};

verus! {

/// A window handle of any platform.
#[derive(Debug, Clone, Copy, PartialEq, Eq, Structural)]
pub enum RawWindowHandle {
    Win32 { hwnd: Hwnd },
    /// The handle of another windowing system.
    Other,
}

/// Refers to a window that was opened.
#[derive(Debug, PartialEq, Eq)]
pub struct WindowHandle {
    of: Hwnd,
    hwnd: Option<Hwnd>,
    is_open: bool,
}

/// The window's own end of its handle. The handle counts as open for as long as the window holds
/// on to this. There is one for each handle, and it is given up once.
#[derive(Debug, PartialEq, Eq)]
pub struct ParentHandle {
    of: Hwnd,
}

/// Whether a handle is open after its window is gone, if the window held `parent_handle`.
pub open spec fn open_after_release(open: bool, parent_handle: Option<Hwnd>) -> bool {
    open && parent_handle is None
}

impl WindowHandle {
    /// The window that the handle was made for. It stays the same when the handle is closed.
    pub closed spec fn of(self) -> Hwnd {
        self.of
    }

    /// The window, until `close` was called.
    pub closed spec fn window(self) -> Option<Hwnd> {
        self.hwnd
    }

    /// The window has not let go of its parent handle.
    pub closed spec fn open(self) -> bool {
        self.is_open
    }

    /// Asks the window to close. Only the first call has anything to post.
    pub fn close(&mut self) -> (r: Option<Action>)
        ensures
            final(self).of() == old(self).of(),
            final(self).window() == None::<Hwnd>,
            final(self).open() == old(self).open(),
            r == match old(self).window() {
                Some(hwnd) => Some(Action::PostMessage { hwnd, msg: BV_WINDOW_MUST_CLOSE }),
                None => None,
            },
    {
        match self.hwnd.take() {
            Some(hwnd) => Some(Action::PostMessage { hwnd, msg: BV_WINDOW_MUST_CLOSE }),
            None => None,
        }
    }

    /// Whether the window is still there.
    pub fn is_open(&self) -> (r: bool)
        ensures
            r == self.open(),
    {
        self.is_open
    }

    /// The window's raw handle. It is null once `close` was called.
    pub fn raw_window_handle(&self) -> (r: RawWindowHandle)
        ensures
            r == (RawWindowHandle::Win32 {
                hwnd: match self.window() {
                    Some(hwnd) => hwnd,
                    None => Hwnd::null(),
                },
            }),
    {
        match self.hwnd {
            Some(hwnd) => RawWindowHandle::Win32 { hwnd },
            None => RawWindowHandle::Win32 { hwnd: Hwnd { address: 0 } },
        }
    }
}

impl ParentHandle {
    /// The window that the handle was made for.
    pub closed spec fn of(self) -> Hwnd {
        self.of
    }

    /// The two ends of a new window's handle.
    pub fn new(hwnd: Hwnd) -> (r: (ParentHandle, WindowHandle))
        ensures
            r.0.of() == hwnd,
            r.1.of() == hwnd,
            r.1.window() == Some(hwnd),
            r.1.open(),
    {
        (ParentHandle { of: hwnd }, WindowHandle { of: hwnd, hwnd: Some(hwnd), is_open: true })
    }

    /// Whether the two are ends of one handle.
    pub fn belongs_to(&self, handle: &WindowHandle) -> (r: bool)
        ensures
            r == (self.of() == handle.of()),
    {
        self.of == handle.of
    }

    /// Gives up the window's end: the handle it was made with is no longer open.
    pub fn release(self, handle: &mut WindowHandle)
        requires
            self.of() == old(handle).of(),
        ensures
            !final(handle).open(),
            final(handle).of() == old(handle).of(),
            final(handle).window() == old(handle).window(),
    {
        handle.is_open = false;
    }
}

} // verus!
