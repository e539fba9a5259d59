//! The events that a window's handler is told of.

use vstd::prelude::*;

use crate::geometry::{PhyPoint, WindowInfo};

verus! {

#[derive(Debug, Clone, Copy, PartialEq, Eq, Structural)]
pub enum MouseButton {
    Left,
    Middle,
    Right,
    Back,
    Forward,
}

/// The cursor that a window shows over its client area.
#[derive(Debug, Clone, Copy, PartialEq, Eq, Structural)]
pub enum MouseCursor {
    Default,
    Hand,
    HandGrabbing,
    Help,
    Hidden,
    Text,
    VerticalText,
    Working,
    PtrWorking,
    NotAllowed,
    PtrNotAllowed,
    ZoomIn,
    ZoomOut,
    Alias,
    Copy,
    Move,
    AllScroll,
    Cell,
    Crosshair,
    EResize,
    NResize,
    NeResize,
    NwResize,
    SResize,
    SeResize,
    SwResize,
    WResize,
    EwResize,
    NsResize,
    NwseResize,
    NeswResize,
    ColResize,
    RowResize,
}

/// The keys held during a mouse message, as its `wparam` reports them. The keyboard state turns
/// them into modifiers when the event is delivered.
#[derive(Debug, Clone, Copy, PartialEq, Eq, Structural)]
pub struct Keys {
    pub wparam: usize,
}

/// How far the wheel was turned.
#[derive(Debug, Clone, Copy, PartialEq, Eq, Structural)]
pub enum ScrollDelta {
    /// In lines, each counted as `WHEEL_DELTA`.
    Lines { x: i32, y: i32 },
}

#[derive(Debug, Clone, Copy, PartialEq, Eq, Structural)]
pub enum MouseEvent {
    /// The position is in physical pixels; the window's scale makes it logical on delivery.
    CursorMoved { position: PhyPoint, modifiers: Keys },
    ButtonPressed { button: MouseButton, modifiers: Keys },
    ButtonReleased { button: MouseButton, modifiers: Keys },
    WheelScrolled { delta: ScrollDelta, modifiers: Keys },
    CursorEntered,
    CursorLeft,
}

#[derive(Debug, Clone, Copy, PartialEq, Eq, Structural)]
pub enum WindowEvent {
    Resized(WindowInfo),
    WillClose,
}

#[derive(Debug, Clone, Copy, PartialEq, Eq, Structural)]
pub enum Event {
    Mouse(MouseEvent),
    /// The event that the keyboard state has just made of a keyboard message.
    Keyboard,
    Window(WindowEvent),
}

} // verus!
