//! A window's state, and what it makes of messages.

use std::collections::VecDeque;

use vstd::prelude::*;

use crate::action::{Action, Entry, Next, Reaction, ResizeQuery, Settled};
use crate::dpi::get_dpi_for_window;
use crate::event::{Event, Keys, MouseButton, MouseCursor, MouseEvent, ScrollDelta, WindowEvent};
use crate::geometry::{
    window_info_changed, PhyPoint, PhySize, Real, Size, WindowInfo, WindowScalePolicy,
};
use crate::handle::{open_after_release, ParentHandle, WindowHandle};
use crate::message::{decoded, Message};
use crate::model::{Outcome, Settling, WindowModel};
use crate::placement::ClientSize;
use crate::win32::{Hwnd, WIN_FRAME_TIMER, WM_CREATE, WM_NCDESTROY, WM_SHOWWINDOW};
use crate::window::Window;

verus! {

/// A task that waits until the message at hand has been answered, because the handler that asked
/// for it is still at work.
#[derive(Debug, Clone, Copy, PartialEq, Eq, Structural)]
pub enum WindowTask {
    /// Resize the window to the given size in logical pixels.
    Resize(Size),
}

/// An OpenGL context, by its handle.
#[derive(Debug, Clone, Copy, PartialEq, Eq, Structural)]
pub struct GlContext {
    pub handle: usize,
}

/// All data of a window.
#[derive(Debug)]
pub struct WindowState {
    hwnd: Hwnd,
    window_class: u16,
    window_info: WindowInfo,
    parent_handle: Option<ParentHandle>,
    mouse_button_counter: usize,
    mouse_was_outside_window: bool,
    cursor_icon: MouseCursor,
    scale_policy: WindowScalePolicy,
    dw_style: u32,
    parented: bool,
    deferred_tasks: VecDeque<WindowTask>,
    gl_context: Option<GlContext>,
}

impl View for WindowState {
    type V = WindowModel;

    closed spec fn view(&self) -> WindowModel {
        WindowModel {
            hwnd: self.hwnd,
            window_class: self.window_class,
            window_info: self.window_info,
            parent_handle: match self.parent_handle {
                Some(parent_handle) => Some(parent_handle.of()),
                None => None,
            },
            mouse_button_counter: self.mouse_button_counter as nat,
            mouse_was_outside_window: self.mouse_was_outside_window,
            cursor_icon: self.cursor_icon,
            scale_policy: self.scale_policy,
            dw_style: self.dw_style,
            parented: self.parented,
            deferred_tasks: self.deferred_tasks@,
            gl_context: self.gl_context,
        }
    }
}

impl Reaction {
    /// It is what the outcome says.
    pub open spec fn realizes(self, outcome: Outcome) -> bool {
        &&& self.actions@ =~= outcome.actions
        &&& self.next == outcome.next
    }
}

impl View for Settled {
    type V = Settling;

    open spec fn view(&self) -> Settling {
        match self {
            Settled::Task(task) => Settling::Task(*task),
            Settled::Exit { teardown, answer } => Settling::Exit {
                teardown: teardown@,
                answer: *answer,
            },
        }
    }
}

impl WindowState {
    /// A window that has just been created.
    pub(crate) fn new(
        hwnd: Hwnd,
        window_class: u16,
        window_info: WindowInfo,
        parent_handle: Option<ParentHandle>,
        scale_policy: WindowScalePolicy,
        dw_style: u32,
        parented: bool,
        gl_context: Option<GlContext>,
    ) -> (r: WindowState)
        ensures
            r@ == (WindowModel {
                hwnd,
                window_class,
                window_info,
                parent_handle: match parent_handle {
                    Some(parent_handle) => Some(parent_handle.of()),
                    None => None,
                },
                mouse_button_counter: 0,
                mouse_was_outside_window: true,
                cursor_icon: MouseCursor::Default,
                scale_policy,
                dw_style,
                parented,
                deferred_tasks: seq![],
                gl_context,
            }),
    {
        WindowState {
            hwnd,
            window_class,
            window_info,
            parent_handle,
            mouse_button_counter: 0,
            mouse_was_outside_window: true,
            cursor_icon: MouseCursor::Default,
            scale_policy,
            dw_style,
            parented,
            deferred_tasks: VecDeque::with_capacity(4),
            gl_context,
        }
    }

    fn answer(actions: Vec<Action>, value: Option<isize>) -> (r: Reaction)
        ensures
            r.actions@ == actions@,
            r.next == Next::Answer(value),
    {
        Reaction { actions, next: Next::Answer(value) }
    }

    fn on_mouse_move(&mut self, hwnd: Hwnd, position: PhyPoint, keys: Keys) -> (r: Reaction)
        ensures
            final(self)@ == old(self)@.on_mouse_move(hwnd, position, keys).model,
            r.realizes(old(self)@.on_mouse_move(hwnd, position, keys)),
    {
        let mut actions: Vec<Action> = Vec::new();
        if self.mouse_was_outside_window {
            actions.push(Action::TrackMouseLeave(hwnd));
            self.mouse_was_outside_window = false;
            actions.push(Action::Deliver(Event::Mouse(MouseEvent::CursorEntered)));
        }
        let moved = MouseEvent::CursorMoved { position, modifiers: keys };
        actions.push(Action::Deliver(Event::Mouse(moved)));
        Self::answer(actions, Some(0))
    }

    fn on_button(
        &mut self,
        hwnd: Hwnd,
        button: Option<MouseButton>,
        pressed: bool,
        keys: Keys,
    ) -> (r: Reaction)
        ensures
            final(self)@ == old(self)@.on_button(hwnd, button, pressed, keys).model,
            r.realizes(old(self)@.on_button(hwnd, button, pressed, keys)),
    {
        let mut actions: Vec<Action> = Vec::new();
        if let Some(button) = button {
            let event = if pressed {
                self.mouse_button_counter = self.mouse_button_counter.saturating_add(1);
                actions.push(Action::SetCapture(hwnd));
                MouseEvent::ButtonPressed { button, modifiers: keys }
            } else {
                self.mouse_button_counter = self.mouse_button_counter.saturating_sub(1);
                if self.mouse_button_counter == 0 {
                    actions.push(Action::ReleaseCapture);
                }
                MouseEvent::ButtonReleased { button, modifiers: keys }
            };
            actions.push(Action::Deliver(Event::Mouse(event)));
        }
        Self::answer(actions, None)
    }

    /// Reacts to a message. If the answer is a value, it is returned once the deferred tasks are
    /// done; otherwise the default procedure answers after them.
    pub fn wnd_proc_inner(&mut self, hwnd: Hwnd, msg: u32, wparam: usize, lparam: isize) -> (r:
        Reaction)
        ensures
            final(self)@ == old(self)@.reaction(hwnd, decoded(msg, wparam, lparam)).model,
            r.realizes(old(self)@.reaction(hwnd, decoded(msg, wparam, lparam))),
    {
        match Message::decode(msg, wparam, lparam) {
            Message::MouseMove { position, keys } => self.on_mouse_move(hwnd, position, keys),
            Message::MouseLeave => Reaction {
                actions: vec![Action::Deliver(Event::Mouse(MouseEvent::CursorLeft))],
                next: Next::MouseLeft,
            },
            Message::Wheel { vertical, amount, keys } => {
                let delta = if vertical {
                    ScrollDelta::Lines { x: 0, y: amount }
                } else {
                    ScrollDelta::Lines { x: amount, y: 0 }
                };
                let scrolled = MouseEvent::WheelScrolled { delta, modifiers: keys };
                Self::answer(vec![Action::Deliver(Event::Mouse(scrolled))], Some(0))
            },
            Message::Button { button, pressed, keys } => self.on_button(hwnd, button, pressed, keys),
            Message::Timer { id } => {
                let mut actions: Vec<Action> = Vec::new();
                if id == WIN_FRAME_TIMER {
                    actions.push(Action::DrawFrame);
                }
                Self::answer(actions, Some(0))
            },
            Message::Close => Reaction {
                actions: vec![Action::Deliver(Event::Window(WindowEvent::WillClose))],
                next: Next::CallDefault,
            },
            Message::Keyboard { system_key_down } => Reaction {
                actions: Vec::new(),
                next: Next::ProcessKeyboard { system_key_down },
            },
            Message::Size(physical) => Reaction {
                actions: Vec::new(),
                next: Next::ToLogical { physical, scale: self.window_info.scale() },
            },
            Message::DpiChanged { dpi } => {
                if !self.scale_policy.follows_system() {
                    return Self::answer(Vec::new(), None);
                }
                let logical = self.window_info.logical_size();
                Reaction { actions: Vec::new(), next: Next::ToPhysical { logical, dpi } }
            },
            Message::DpiChangedAfterParent => {
                if !self.scale_policy.follows_system() {
                    return Self::answer(Vec::new(), None);
                }
                Reaction { actions: Vec::new(), next: Next::QueryDpi(hwnd) }
            },
            Message::SetCursor { in_client_area } => {
                if in_client_area {
                    Self::answer(vec![Action::SetCursor(self.cursor_icon)], Some(1))
                } else {
                    Self::answer(Vec::new(), None)
                }
            },
            Message::MustClose => Self::answer(vec![Action::DestroyWindow(hwnd)], Some(0)),
            Message::Other => Self::answer(Vec::new(), None),
        }
    }

    /// Goes on with `WM_MOUSELEAVE` once the handler was told: the pointer is outside.
    pub fn mouse_left(&mut self) -> (r: Reaction)
        ensures
            final(self)@ == old(self)@.after_mouse_left().model,
            r.realizes(old(self)@.after_mouse_left()),
    {
        self.mouse_was_outside_window = true;
        Self::answer(Vec::new(), Some(0))
    }

    /// Goes on with a keyboard message once the keyboard state has processed it.
    pub fn keyboard_processed(&self, system_key_down: bool, has_event: bool) -> (r: Reaction)
        ensures
            r.realizes(self@.after_keyboard(system_key_down, has_event)),
    {
        let mut actions: Vec<Action> = Vec::new();
        if has_event {
            actions.push(Action::Deliver(Event::Keyboard));
        }
        Self::answer(
            actions,
            if !system_key_down {
                Some(0)
            } else {
                None
            },
        )
    }

    /// Goes on with `WM_SIZE` once the logical size is known.
    pub fn resized(&mut self, physical: PhySize, logical: Size) -> (r: Reaction)
        ensures
            final(self)@ == old(self)@.after_size(physical, logical).model,
            r.realizes(old(self)@.after_size(physical, logical)),
    {
        let new_window_info = WindowInfo::from_physical_size(
            physical,
            self.window_info.scale(),
            logical,
        );
        if self.window_info.physical_size() == new_window_info.physical_size() {
            return Self::answer(Vec::new(), None);
        }
        self.window_info = new_window_info;
        Self::answer(
            vec![Action::Deliver(Event::Window(WindowEvent::Resized(new_window_info)))],
            None,
        )
    }

    /// Goes on with `WM_DPICHANGED` once the new scale and physical size are known. `suggested`
    /// is the corner of the rectangle that the message points to, if it points to one.
    pub fn dpi_changed(
        &mut self,
        hwnd: Hwnd,
        dpi: u32,
        scale: Real,
        physical: PhySize,
        suggested: Option<PhyPoint>,
    ) -> (r: Reaction)
        ensures
            final(self)@ == old(self)@.after_dpi_changed(hwnd, dpi, scale, physical, suggested).model,
            r.realizes(old(self)@.after_dpi_changed(hwnd, dpi, scale, physical, suggested)),
            final(self)@.window_info == (WindowInfo {
                physical_size: physical,
                logical_size: old(self)@.window_info.logical_size,
                scale,
            }),
            r.actions@.len() > 0,
            r.actions@.last() == Action::SetClientSize(
                ClientSize {
                    hwnd,
                    client_size: physical,
                    dw_style: old(self)@.dw_style,
                    parented: old(self)@.parented,
                    dpi: Some(dpi),
                    position: if old(self)@.parented {
                        None
                    } else {
                        suggested
                    },
                },
            ),
    {
        let new_window_info = WindowInfo::from_logical_size(
            self.window_info.logical_size(),
            scale,
            physical,
        );
        let changed = window_info_changed(&self.window_info, &new_window_info);
        self.window_info = new_window_info;
        let mut actions: Vec<Action> = Vec::new();
        if changed {
            actions.push(Action::Deliver(Event::Window(WindowEvent::Resized(new_window_info))));
        }
        let position = if self.parented {
            None
        } else {
            suggested
        };
        actions.push(Action::SetClientSize(self.client_size(hwnd, physical, Some(dpi), position)));
        Self::answer(actions, Some(0))
    }

    /// Goes on with `WM_DPICHANGED_AFTERPARENT` once the window's DPI was reported.
    pub fn dpi_reported(&self, reported: u32) -> (r: Reaction)
        ensures
            r.realizes(self@.after_dpi_reported(reported)),
    {
        let dpi = get_dpi_for_window(reported);
        let logical = self.window_info.logical_size();
        Reaction { actions: Vec::new(), next: Next::ToPhysicalAfterParent { logical, dpi } }
    }

    /// Goes on with `WM_DPICHANGED_AFTERPARENT` once the new scale and physical size are known.
    pub fn dpi_changed_after_parent(
        &mut self,
        hwnd: Hwnd,
        dpi: u32,
        scale: Real,
        physical: PhySize,
    ) -> (r: Reaction)
        ensures
            final(self)@ == old(self)@.after_dpi_changed_after_parent(
                hwnd,
                dpi,
                scale,
                physical,
            ).model,
            r.realizes(old(self)@.after_dpi_changed_after_parent(hwnd, dpi, scale, physical)),
            final(self)@.window_info.physical_size == physical,
            final(self)@.window_info.logical_size == old(self)@.window_info.logical_size,
            r.actions@.len() > 0,
            r.actions@.last() == Action::SetClientSize(
                ClientSize {
                    hwnd,
                    client_size: physical,
                    dw_style: old(self)@.dw_style,
                    parented: old(self)@.parented,
                    dpi: Some(dpi),
                    position: None,
                },
            ),
    {
        let new_window_info = WindowInfo::from_logical_size(
            self.window_info.logical_size(),
            scale,
            physical,
        );
        let mut actions: Vec<Action> = Vec::new();
        if self.update_window_info(new_window_info) {
            actions.push(Action::Deliver(Event::Window(WindowEvent::Resized(new_window_info))));
        }
        actions.push(Action::SetClientSize(self.client_size(hwnd, physical, Some(dpi), None)));
        Self::answer(actions, Some(0))
    }

    /// The wish for a client area of the given size.
    pub(crate) fn client_size(
        &self,
        hwnd: Hwnd,
        physical: PhySize,
        dpi: Option<u32>,
        position: Option<PhyPoint>,
    ) -> (r: ClientSize)
        ensures
            r == self@.client_size(hwnd, physical, dpi, position),
    {
        ClientSize {
            hwnd,
            client_size: physical,
            dw_style: self.dw_style,
            parented: self.parented,
            dpi,
            position,
        }
    }

    /// Takes the info over if anything about it is new, and says whether it was.
    pub fn update_window_info(&mut self, new_window_info: WindowInfo) -> (changed: bool)
        ensures
            changed == !old(self)@.window_info.equals(new_window_info),
            final(self)@ == old(self)@.updated(new_window_info),
    {
        if !window_info_changed(&self.window_info, &new_window_info) {
            return false;
        }
        self.window_info = new_window_info;
        true
    }

    /// Takes up a deferred task: says what has to be known for it. The window's info is left to
    /// the `WM_SIZE` that the resize brings about.
    pub fn handle_deferred_task(&self, task: WindowTask) -> (r: ResizeQuery)
        ensures
            r == match task {
                WindowTask::Resize(size) => self@.resize_query(size),
            },
            task == WindowTask::Resize(r.logical),
            r.scale == self@.window_info.scale,
            self@.scale_policy is SystemScaleFactor ==> r.dpi_of == Some(self@.hwnd),
            !(self@.scale_policy is SystemScaleFactor) ==> r.dpi_of is None,
    {
        match task {
            WindowTask::Resize(size) => ResizeQuery {
                logical: size,
                scale: self.window_info.scale(),
                dpi_of: if self.scale_policy.follows_system() {
                    Some(self.hwnd)
                } else {
                    None
                },
            },
        }
    }

    /// Goes on with a deferred resize once the physical size is known, and the DPI where it was
    /// asked for.
    pub fn resize_to(&self, physical: PhySize, reported: Option<u32>) -> (r: ClientSize)
        requires
            reported is Some <==> self@.scale_policy is SystemScaleFactor,
        ensures
            r == self@.resize_wish(physical, reported),
            r.hwnd == self@.hwnd,
            r.client_size == physical,
            r.dw_style == self@.dw_style,
            r.parented == self@.parented,
            r.dpi == match reported {
                Some(reported) => Some(
                    if reported == 0 {
                        96u32
                    } else {
                        reported
                    },
                ),
                None => None,
            },
            r.position is None,
    {
        let dpi = match reported {
            Some(reported) => Some(get_dpi_for_window(reported)),
            None => None,
        };
        self.client_size(self.hwnd, physical, dpi, None)
    }

    /// Puts a task off until the message at hand has been answered.
    pub(crate) fn defer(&mut self, task: WindowTask)
        ensures
            final(self)@ == (WindowModel {
                deferred_tasks: old(self)@.deferred_tasks.push(task),
                ..old(self)@
            }),
    {
        self.deferred_tasks.push_back(task);
    }

    /// Takes the task that has waited longest.
    pub fn next_deferred_task(&mut self) -> (r: Option<WindowTask>)
        ensures
            old(self)@.deferred_tasks.len() == 0 ==> r is None && final(self)@ == old(self)@,
            old(self)@.deferred_tasks.len() > 0 ==> {
                &&& r == Some(old(self)@.deferred_tasks.first())
                &&& final(self)@ == old(self)@.without_first_task()
            },
    {
        self.deferred_tasks.pop_front()
    }

    /// Goes on once the message has its answer. Every deferred task comes first, whatever the
    /// answer is; then a window that is gone is taken down.
    pub fn settle(&mut self, hwnd: Hwnd, msg: u32, answer: Option<isize>) -> (r: Settled)
        ensures
            r@ == old(self)@.settling(hwnd, msg, answer),
            final(self)@ == old(self)@.settled(),
    {
        if let Some(task) = self.next_deferred_task() {
            return Settled::Task(task);
        }
        let mut teardown: Vec<Action> = Vec::new();
        if msg == WM_NCDESTROY {
            teardown.push(Action::RevokeDragDrop(hwnd));
            teardown.push(Action::UnregisterClass(self.window_class));
            teardown.push(Action::DetachState(hwnd));
            teardown.push(Action::ReleaseState);
        }
        Settled::Exit { teardown, answer }
    }

    /// Whether the window can let go of the handle: it holds no end of another one.
    pub fn can_release(&self, handle: &WindowHandle) -> (r: bool)
        ensures
            r == self@.releases(handle.of()),
    {
        match &self.parent_handle {
            Some(parent_handle) => parent_handle.belongs_to(handle),
            None => true,
        }
    }

    /// Lets go of the state of a window that is gone. If the window still held its parent handle,
    /// the opener's handle is no longer open.
    pub fn release(self, handle: &mut WindowHandle)
        requires
            self@.releases(old(handle).of()),
        ensures
            final(handle).open() == open_after_release(old(handle).open(), self@.parent_handle),
            final(handle).of() == old(handle).of(),
            final(handle).window() == old(handle).window(),
    {
        if let Some(parent_handle) = self.parent_handle {
            parent_handle.release(handle);
        }
    }

    /// The window as its handler sees it.
    pub fn create_window(&mut self) -> (r: Window<'_>)
        ensures
            *r.state == *old(self),
            *final(self) == *final(r.state),
    {
        Window { state: self }
    }

    pub fn window_info(&self) -> (r: WindowInfo)
        ensures
            r == self@.window_info,
    {
        self.window_info
    }

    pub fn scale_policy(&self) -> (r: WindowScalePolicy)
        ensures
            r == self@.scale_policy,
    {
        self.scale_policy
    }

    pub fn hwnd(&self) -> (r: Hwnd)
        ensures
            r == self@.hwnd,
    {
        self.hwnd
    }

    pub fn gl_context(&self) -> (r: Option<&GlContext>)
        ensures
            r == match self@.gl_context {
                Some(context) => Some(&context),
                None => None,
            },
    {
        self.gl_context.as_ref()
    }

    pub(crate) fn set_cursor_icon(&mut self, cursor_icon: MouseCursor)
        ensures
            final(self)@ == (WindowModel { cursor_icon, ..old(self)@ }),
    {
        self.cursor_icon = cursor_icon;
    }
}

/// The count of held buttons is one that the machine can hold.
pub proof fn button_count_is_in_range(state: WindowState)
    ensures
        0 <= state@.mouse_button_counter <= usize::MAX,
{
}

/// The window procedure's first decision. A window that is being created shows itself; any other
/// message goes to the window's state, if one is attached to the handle.
pub fn wnd_proc(hwnd: Hwnd, msg: u32, has_state: bool) -> (r: Entry)
    ensures
        r == if msg == WM_CREATE {
            Entry::Answer { action: Action::PostMessage { hwnd, msg: WM_SHOWWINDOW }, value: 0 }
        } else if has_state {
            Entry::Handle
        } else {
            Entry::CallDefault
        },
{
    if msg == WM_CREATE {
        return Entry::Answer {
            action: Action::PostMessage { hwnd, msg: WM_SHOWWINDOW },
            value: 0,
        };
    }
    if has_state {
        Entry::Handle
    } else {
        Entry::CallDefault
    }
}

} // verus!
