//! The place of a window's state, from the opening of the window to its destruction.
//!
//! A message may destroy the window while it is being handled. The state is then released by the
//! nested call that takes the window down, and the call around it finds the place empty.

use vstd::prelude::*;

use crate::action::Settled;
use crate::handle::{open_after_release, WindowHandle};
use crate::model::{place_settled, place_settling, WindowModel};
use crate::state::WindowState;
use crate::win32::Hwnd;

verus! {

/// Holds a window's state until it is released.
#[derive(Debug)]
pub struct WindowSlot {
    state: Option<WindowState>,
}

impl View for WindowSlot {
    type V = Option<WindowModel>;

    closed spec fn view(&self) -> Option<WindowModel> {
        match self.state {
            Some(state) => Some(state@),
            None => None,
        }
    }
}

impl WindowSlot {
    pub fn new(state: WindowState) -> (r: WindowSlot)
        ensures
            r@ == Some(state@),
    {
        WindowSlot { state: Some(state) }
    }

    /// Whether the state was released.
    pub fn is_released(&self) -> (r: bool)
        ensures
            r == (self@ is None),
    {
        self.state.is_none()
    }

    /// The state, unless it was released.
    pub fn state(&mut self) -> (r: Option<&mut WindowState>)
        ensures
            r is Some <==> old(self)@ is Some,
            r matches Some(state) ==> old(self)@ == Some((*state)@) && final(self)@ == Some(
                (*final(state))@,
            ),
            r is None ==> final(self)@ is None,
    {
        match &mut self.state {
            Some(state) => Some(state),
            None => None,
        }
    }

    /// Goes on once the message has its answer, as the state does. If the window was destroyed in
    /// the meantime, there is nothing left to do but to return the answer.
    pub fn settle(&mut self, hwnd: Hwnd, msg: u32, answer: Option<isize>) -> (r: Settled)
        ensures
            r@ == place_settling(old(self)@, hwnd, msg, answer),
            final(self)@ == place_settled(old(self)@),
    {
        match &mut self.state {
            Some(state) => state.settle(hwnd, msg, answer),
            None => Settled::Exit { teardown: Vec::new(), answer },
        }
    }

    /// Whether the place can be emptied: the window holds no end of another handle.
    pub fn can_release(&self, handle: &WindowHandle) -> (r: bool)
        ensures
            r == (self@ matches Some(m) ==> m.releases(handle.of())),
    {
        match &self.state {
            Some(state) => state.can_release(handle),
            None => true,
        }
    }

    /// Releases the state, and says whether there was one.
    pub fn release(&mut self, handle: &mut WindowHandle) -> (released: bool)
        requires
            old(self)@ matches Some(m) ==> m.releases(old(handle).of()),
        ensures
            final(self)@ is None,
            released == (old(self)@ is Some),
            final(handle).open() == match old(self)@ {
                Some(m) => open_after_release(old(handle).open(), m.parent_handle),
                None => old(handle).open(),
            },
            final(handle).of() == old(handle).of(),
            final(handle).window() == old(handle).window(),
    {
        match self.state.take() {
            Some(state) => {
                state.release(handle);
                true
            },
            None => false,
        }
    }
}

} // verus!
