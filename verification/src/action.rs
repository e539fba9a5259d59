//! What the library asks of its surroundings.

use vstd::prelude::*;

use crate::event::{Event, MouseCursor};
use crate::geometry::{PhySize, Real, Size};
use crate::placement::ClientSize;
use crate::state::WindowTask;
use crate::win32::Hwnd;

verus! {

/// Something to be done. A list of actions is carried out in its order.
#[derive(Debug, Clone, Copy, PartialEq, Eq, Structural)]
pub enum Action {
    /// Ask the system for a `WM_MOUSELEAVE` when the pointer leaves the window.
    TrackMouseLeave(Hwnd),
    /// Have the window receive all mouse input.
    SetCapture(Hwnd),
    ReleaseCapture,
    /// Load the cursor and show it.
    SetCursor(MouseCursor),
    /// Hand the event to the window's handler.
    Deliver(Event),
    /// Let the window's handler draw a frame.
    DrawFrame,
    /// Size the window's client area.
    SetClientSize(ClientSize),
    SetFocus(Hwnd),
    /// Post a message that has both parameters zero.
    PostMessage { hwnd: Hwnd, msg: u32 },
    DestroyWindow(Hwnd),
    /// Hook the keyboard for the window.
    InstallKeyboardHook(Hwnd),
    /// Create the window's OpenGL context.
    CreateGlContext(Hwnd),
    /// Make a drop target for the window and register it.
    RegisterDropTarget(Hwnd),
    /// Attach the window's state to its handle, so that messages reach it.
    AttachState(Hwnd),
    StartTimer { hwnd: Hwnd, id: usize, interval: u32 },
    RevokeDragDrop(Hwnd),
    /// Unregister the window's class.
    UnregisterClass(u16),
    /// Take the window's state off its handle.
    DetachState(Hwnd),
    /// Let go of the window's state, and with it of its parent handle.
    ReleaseState,
}

/// What has to be known before a message is answered.
#[derive(Debug, Clone, Copy, PartialEq, Eq, Structural)]
pub enum Next {
    /// The message is answered: with a value, or with `None` where the default procedure is to
    /// answer it in the end.
    Answer(Option<isize>),
    /// The default procedure is called at once, and its value is the answer.
    CallDefault,
    /// Nothing: `WindowState::mouse_left` goes on once the actions are done.
    MouseLeft,
    /// Whether the keyboard state makes an event of the message; `WindowState::keyboard_processed`
    /// goes on.
    ProcessKeyboard { system_key_down: bool },
    /// The physical size divided by the scale; `WindowState::resized` goes on.
    ToLogical { physical: PhySize, scale: Real },
    /// The scale that the DPI stands for, the logical size multiplied by it in whole pixels, and
    /// the corner of the rectangle that the message suggests, if it has one;
    /// `WindowState::dpi_changed` goes on.
    ToPhysical { logical: Size, dpi: u32 },
    /// What `GetDpiForWindow` reports; `WindowState::dpi_reported` goes on.
    QueryDpi(Hwnd),
    /// As `ToPhysical`, without a suggestion; `WindowState::dpi_changed_after_parent` goes on.
    ToPhysicalAfterParent { logical: Size, dpi: u32 },
}

/// What is done about a message, up to the point where something has to be found out.
#[derive(Debug)]
pub struct Reaction {
    pub actions: Vec<Action>,
    pub next: Next,
}

/// What has to be known before a deferred resize.
#[derive(Debug, Clone, Copy, PartialEq, Eq, Structural)]
pub struct ResizeQuery {
    /// This size, multiplied by the scale, in whole pixels.
    pub logical: Size,
    pub scale: Real,
    /// What `GetDpiForWindow` reports for this window.
    pub dpi_of: Option<Hwnd>,
}

/// What comes after a message has an answer.
#[derive(Debug)]
pub enum Settled {
    /// A task was deferred: it is handled first.
    Task(WindowTask),
    /// All tasks are done. After the teardown, which is mostly empty, the answer is returned;
    /// without one the default procedure answers.
    Exit { teardown: Vec<Action>, answer: Option<isize> },
}

/// What a call of the window procedure comes to.
#[derive(Debug, Clone, Copy, PartialEq, Eq, Structural)]
pub enum Entry {
    /// The action is done and the value returned.
    Answer { action: Action, value: isize },
    /// The default procedure answers.
    CallDefault,
    /// The window's state is asked: `WindowState::wnd_proc_inner`, and then `WindowSlot::settle`
    /// for as long as there are tasks.
    Handle,
}

} // verus!
