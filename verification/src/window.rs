//! A window, as its handler sees it.

use vstd::prelude::*;

use crate::action::Action;
use crate::event::MouseCursor;
use crate::geometry::Size;
use crate::handle::RawWindowHandle;
use crate::model::WindowModel;
use crate::state::{GlContext, WindowState, WindowTask};
use crate::win32::{Hwnd, BV_WINDOW_MUST_CLOSE};

verus! {

/// Lets a handler act on its window while it handles an event.
#[derive(Debug)]
pub struct Window<'a> {
    pub state: &'a mut WindowState,
}

impl<'a> Window<'a> {
    /// The state of the window.
    pub open spec fn model(self) -> WindowModel {
        (*self.state)@
    }

    /// Asks the window to close, by a message that is posted to it.
    pub fn close(&mut self) -> (r: Action)
        ensures
            r == (Action::PostMessage { hwnd: old(self).model().hwnd, msg: BV_WINDOW_MUST_CLOSE }),
            *final(self) == *old(self),
    {
        Action::PostMessage { hwnd: self.state.hwnd(), msg: BV_WINDOW_MUST_CLOSE }
    }

    /// Whether the window has the keyboard focus, where `focused` is the window that
    /// `GetFocus` names.
    pub fn has_focus(&mut self, focused: Hwnd) -> (r: bool)
        ensures
            r == (focused == old(self).model().hwnd),
            *final(self) == *old(self),
    {
        focused == self.state.hwnd()
    }

    /// Gives the window the keyboard focus.
    pub fn focus(&mut self) -> (r: Action)
        ensures
            r == Action::SetFocus(old(self).model().hwnd),
            *final(self) == *old(self),
    {
        Action::SetFocus(self.state.hwnd())
    }

    /// Resizes the window, once the event at hand has been handled.
    pub fn resize(&mut self, size: Size)
        ensures
            final(self).model() == (WindowModel {
                deferred_tasks: old(self).model().deferred_tasks.push(WindowTask::Resize(size)),
                ..old(self).model()
            }),
            *final(final(self).state) == *final(old(self).state),
    {
        self.state.defer(WindowTask::Resize(size));
    }

    /// Changes the cursor that the window shows.
    pub fn set_mouse_cursor(&mut self, mouse_cursor: MouseCursor) -> (r: Action)
        ensures
            r == Action::SetCursor(mouse_cursor),
            final(self).model() == (WindowModel {
                cursor_icon: mouse_cursor,
                ..old(self).model()
            }),
            *final(final(self).state) == *final(old(self).state),
    {
        self.state.set_cursor_icon(mouse_cursor);
        Action::SetCursor(mouse_cursor)
    }

    /// The window's OpenGL context, if it was opened with one.
    pub fn gl_context(&self) -> (r: Option<&GlContext>)
        ensures
            r == match self.model().gl_context {
                Some(context) => Some(&context),
                None => None,
            },
    {
        self.state.gl_context()
    }

    /// The window's raw handle.
    pub fn raw_window_handle(&self) -> (r: RawWindowHandle)
        ensures
            r == (RawWindowHandle::Win32 { hwnd: self.model().hwnd }),
    {
        RawWindowHandle::Win32 { hwnd: self.state.hwnd() }
    }
}

} // verus!
