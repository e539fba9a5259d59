//! The window as mathematics: what its state is, and what each message does to it.

use vstd::prelude::*;

use crate::action::{Action, Next, ResizeQuery};
use crate::dpi::effective_dpi;
use crate::event::{Event, Keys, MouseButton, MouseCursor, MouseEvent, ScrollDelta, WindowEvent};
use crate::geometry::{PhyPoint, PhySize, Real, Size, WindowInfo, WindowScalePolicy};
use crate::message::Message;
use crate::placement::ClientSize;
use crate::state::{GlContext, WindowTask};
use crate::win32::{Hwnd, WIN_FRAME_TIMER, WM_NCDESTROY};

verus! {

/// The state of a window.
#[verifier::ext_equal]
pub ghost struct WindowModel {
    pub hwnd: Hwnd,
    pub window_class: u16,
    pub window_info: WindowInfo,
    /// The window that the parent handle was made for, while the window holds one.
    pub parent_handle: Option<Hwnd>,
    /// How many mouse buttons are held down.
    pub mouse_button_counter: nat,
    pub mouse_was_outside_window: bool,
    pub cursor_icon: MouseCursor,
    pub scale_policy: WindowScalePolicy,
    pub dw_style: u32,
    pub parented: bool,
    /// The oldest task comes first.
    pub deferred_tasks: Seq<WindowTask>,
    pub gl_context: Option<GlContext>,
}

/// A state, what to do, and what comes after.
#[verifier::ext_equal]
pub ghost struct Outcome {
    pub model: WindowModel,
    pub actions: Seq<Action>,
    pub next: Next,
}

/// A task that is due, or the way out of a call of the window procedure.
#[verifier::ext_equal]
pub ghost enum Settling {
    Task(WindowTask),
    Exit { teardown: Seq<Action>, answer: Option<isize> },
}

impl WindowModel {
    /// The same window, answering with the value after the actions.
    pub open spec fn answering(self, actions: Seq<Action>, answer: Option<isize>) -> Outcome {
        Outcome { model: self, actions, next: Next::Answer(answer) }
    }

    pub open spec fn with_info(self, window_info: WindowInfo) -> WindowModel {
        WindowModel { window_info, ..self }
    }

    /// The pointer moved inside the window. If it was outside before, it has entered, and its
    /// leaving is to be tracked.
    pub open spec fn on_mouse_move(self, hwnd: Hwnd, position: PhyPoint, keys: Keys) -> Outcome {
        let entering = if self.mouse_was_outside_window {
            seq![
                Action::TrackMouseLeave(hwnd),
                Action::Deliver(Event::Mouse(MouseEvent::CursorEntered)),
            ]
        } else {
            seq![]
        };
        let moved = MouseEvent::CursorMoved { position, modifiers: keys };
        WindowModel { mouse_was_outside_window: false, ..self }.answering(
            entering + seq![Action::Deliver(Event::Mouse(moved))],
            Some(0),
        )
    }

    /// The pointer leaves: the handler is told, and only then does it count as outside.
    pub open spec fn on_mouse_leave(self) -> Outcome {
        Outcome {
            model: self,
            actions: seq![Action::Deliver(Event::Mouse(MouseEvent::CursorLeft))],
            next: Next::MouseLeft,
        }
    }

    pub open spec fn after_mouse_left(self) -> Outcome {
        WindowModel { mouse_was_outside_window: true, ..self }.answering(seq![], Some(0))
    }

    pub open spec fn on_wheel(self, vertical: bool, amount: i32, keys: Keys) -> Outcome {
        let delta = if vertical {
            ScrollDelta::Lines { x: 0, y: amount }
        } else {
            ScrollDelta::Lines { x: amount, y: 0 }
        };
        let scrolled = MouseEvent::WheelScrolled { delta, modifiers: keys };
        self.answering(seq![Action::Deliver(Event::Mouse(scrolled))], Some(0))
    }

    /// One more button is held down, as far as the machine can count.
    pub open spec fn button_down(self) -> WindowModel {
        WindowModel {
            mouse_button_counter: if self.mouse_button_counter < usize::MAX {
                self.mouse_button_counter + 1
            } else {
                self.mouse_button_counter
            },
            ..self
        }
    }

    /// One button fewer is held down, if any was.
    pub open spec fn button_up(self) -> WindowModel {
        WindowModel {
            mouse_button_counter: if self.mouse_button_counter > 0 {
                (self.mouse_button_counter - 1) as nat
            } else {
                self.mouse_button_counter
            },
            ..self
        }
    }

    /// A press captures the mouse. A release frees it when no button is held any more. A button
    /// that has no name is not looked at.
    pub open spec fn on_button(
        self,
        hwnd: Hwnd,
        button: Option<MouseButton>,
        pressed: bool,
        keys: Keys,
    ) -> Outcome {
        match button {
            None => self.answering(seq![], None),
            Some(button) => if pressed {
                let event = MouseEvent::ButtonPressed { button, modifiers: keys };
                self.button_down().answering(
                    seq![Action::SetCapture(hwnd), Action::Deliver(Event::Mouse(event))],
                    None,
                )
            } else {
                let event = MouseEvent::ButtonReleased { button, modifiers: keys };
                let freeing = if self.button_up().mouse_button_counter == 0 {
                    seq![Action::ReleaseCapture]
                } else {
                    seq![]
                };
                self.button_up().answering(
                    freeing + seq![Action::Deliver(Event::Mouse(event))],
                    None,
                )
            },
        }
    }

    /// The window's own timer draws a frame; any other does nothing.
    pub open spec fn on_timer(self, id: usize) -> Outcome {
        self.answering(
            if id == WIN_FRAME_TIMER {
                seq![Action::DrawFrame]
            } else {
                seq![]
            },
            Some(0),
        )
    }

    /// The handler hears of the closing before the default procedure destroys the window.
    pub open spec fn on_close(self) -> Outcome {
        Outcome {
            model: self,
            actions: seq![Action::Deliver(Event::Window(WindowEvent::WillClose))],
            next: Next::CallDefault,
        }
    }

    pub open spec fn on_keyboard(self, system_key_down: bool) -> Outcome {
        Outcome { model: self, actions: seq![], next: Next::ProcessKeyboard { system_key_down } }
    }

    /// The handler gets the event, if there is one. A system key that goes down is left to the
    /// default procedure too.
    pub open spec fn after_keyboard(self, system_key_down: bool, has_event: bool) -> Outcome {
        self.answering(
            if has_event {
                seq![Action::Deliver(Event::Keyboard)]
            } else {
                seq![]
            },
            if system_key_down {
                None
            } else {
                Some(0)
            },
        )
    }

    pub open spec fn on_size(self, physical: PhySize) -> Outcome {
        Outcome {
            model: self,
            actions: seq![],
            next: Next::ToLogical { physical, scale: self.window_info.scale },
        }
    }

    /// The window has a new size at its present scale. If it had that size already, nothing
    /// happens.
    pub open spec fn after_size(self, physical: PhySize, logical: Size) -> Outcome {
        let info = WindowInfo {
            physical_size: physical,
            logical_size: logical,
            scale: self.window_info.scale,
        };
        if self.window_info.physical_size == physical {
            self.answering(seq![], None)
        } else {
            self.with_info(info).answering(
                seq![Action::Deliver(Event::Window(WindowEvent::Resized(info)))],
                None,
            )
        }
    }

    pub open spec fn on_dpi_changed(self, dpi: u32) -> Outcome {
        if self.scale_policy is SystemScaleFactor {
            Outcome {
                model: self,
                actions: seq![],
                next: Next::ToPhysical { logical: self.window_info.logical_size, dpi },
            }
        } else {
            self.answering(seq![], None)
        }
    }

    /// The info at another scale. The logical size is kept.
    pub open spec fn rescaled_info(self, scale: Real, physical: PhySize) -> WindowInfo {
        WindowInfo { physical_size: physical, logical_size: self.window_info.logical_size, scale }
    }

    /// The wish for a client area of the given size.
    pub open spec fn client_size(
        self,
        hwnd: Hwnd,
        physical: PhySize,
        dpi: Option<u32>,
        position: Option<PhyPoint>,
    ) -> ClientSize {
        ClientSize {
            hwnd,
            client_size: physical,
            dw_style: self.dw_style,
            parented: self.parented,
            dpi,
            position,
        }
    }

    /// Tells the handler of the info, if it is news.
    pub open spec fn news(self, info: WindowInfo) -> Seq<Action> {
        if self.window_info.equals(info) {
            seq![]
        } else {
            seq![Action::Deliver(Event::Window(WindowEvent::Resized(info)))]
        }
    }

    /// The window is on a monitor with another DPI. It keeps its logical size, and a window
    /// without a parent moves to where the system suggests.
    pub open spec fn after_dpi_changed(
        self,
        hwnd: Hwnd,
        dpi: u32,
        scale: Real,
        physical: PhySize,
        suggested: Option<PhyPoint>,
    ) -> Outcome {
        let info = self.rescaled_info(scale, physical);
        let position = if self.parented {
            None
        } else {
            suggested
        };
        self.with_info(info).answering(
            self.news(info) + seq![
                Action::SetClientSize(self.client_size(hwnd, physical, Some(dpi), position)),
            ],
            Some(0),
        )
    }

    pub open spec fn on_dpi_changed_after_parent(self, hwnd: Hwnd) -> Outcome {
        if self.scale_policy is SystemScaleFactor {
            Outcome { model: self, actions: seq![], next: Next::QueryDpi(hwnd) }
        } else {
            self.answering(seq![], None)
        }
    }

    pub open spec fn after_dpi_reported(self, reported: u32) -> Outcome {
        Outcome {
            model: self,
            actions: seq![],
            next: Next::ToPhysicalAfterParent {
                logical: self.window_info.logical_size,
                dpi: effective_dpi(reported),
            },
        }
    }

    /// The info is taken over if it is news.
    pub open spec fn updated(self, info: WindowInfo) -> WindowModel {
        if self.window_info.equals(info) {
            self
        } else {
            self.with_info(info)
        }
    }

    /// The window's parent is on a monitor with another DPI. The window keeps its logical size
    /// and its place.
    pub open spec fn after_dpi_changed_after_parent(
        self,
        hwnd: Hwnd,
        dpi: u32,
        scale: Real,
        physical: PhySize,
    ) -> Outcome {
        let info = self.rescaled_info(scale, physical);
        self.updated(info).answering(
            self.news(info) + seq![
                Action::SetClientSize(self.client_size(hwnd, physical, Some(dpi), None)),
            ],
            Some(0),
        )
    }

    /// Over its client area the window shows its own cursor; elsewhere it has no say.
    pub open spec fn on_set_cursor(self, in_client_area: bool) -> Outcome {
        if in_client_area {
            self.answering(seq![Action::SetCursor(self.cursor_icon)], Some(1))
        } else {
            self.answering(seq![], None)
        }
    }

    pub open spec fn on_must_close(self, hwnd: Hwnd) -> Outcome {
        self.answering(seq![Action::DestroyWindow(hwnd)], Some(0))
    }

    /// What a message does.
    pub open spec fn reaction(self, hwnd: Hwnd, message: Message) -> Outcome {
        match message {
            Message::MouseMove { position, keys } => self.on_mouse_move(hwnd, position, keys),
            Message::MouseLeave => self.on_mouse_leave(),
            Message::Wheel { vertical, amount, keys } => self.on_wheel(vertical, amount, keys),
            Message::Button { button, pressed, keys } => self.on_button(hwnd, button, pressed, keys),
            Message::Timer { id } => self.on_timer(id),
            Message::Close => self.on_close(),
            Message::Keyboard { system_key_down } => self.on_keyboard(system_key_down),
            Message::Size(physical) => self.on_size(physical),
            Message::DpiChanged { dpi } => self.on_dpi_changed(dpi),
            Message::DpiChangedAfterParent => self.on_dpi_changed_after_parent(hwnd),
            Message::SetCursor { in_client_area } => self.on_set_cursor(in_client_area),
            Message::MustClose => self.on_must_close(hwnd),
            Message::Other => self.answering(seq![], None),
        }
    }

    /// What has to be known before a deferred resize.
    pub open spec fn resize_query(self, size: Size) -> ResizeQuery {
        ResizeQuery {
            logical: size,
            scale: self.window_info.scale,
            dpi_of: if self.scale_policy is SystemScaleFactor {
                Some(self.hwnd)
            } else {
                None
            },
        }
    }

    /// The wish that a deferred resize comes to. The window stays where it is.
    pub open spec fn resize_wish(self, physical: PhySize, reported: Option<u32>) -> ClientSize {
        self.client_size(
            self.hwnd,
            physical,
            match reported {
                Some(reported) => Some(effective_dpi(reported)),
                None => None,
            },
            None,
        )
    }

    /// The same window without the task that has waited longest.
    pub open spec fn without_first_task(self) -> WindowModel {
        WindowModel { deferred_tasks: self.deferred_tasks.drop_first(), ..self }
    }

    /// What comes after a message has an answer: the tasks first, and then the way out.
    pub open spec fn settling(self, hwnd: Hwnd, msg: u32, answer: Option<isize>) -> Settling {
        if self.deferred_tasks.len() > 0 {
            Settling::Task(self.deferred_tasks.first())
        } else {
            Settling::Exit {
                teardown: if msg == WM_NCDESTROY {
                    self.teardown(hwnd)
                } else {
                    seq![]
                },
                answer,
            }
        }
    }

    /// The state after that.
    pub open spec fn settled(self) -> WindowModel {
        if self.deferred_tasks.len() > 0 {
            self.without_first_task()
        } else {
            self
        }
    }

    /// A parent handle that the window holds was made for the given window.
    pub open spec fn releases(self, of: Hwnd) -> bool {
        self.parent_handle matches Some(held) ==> held == of
    }

    /// What takes the window down, once it is destroyed.
    pub open spec fn teardown(self, hwnd: Hwnd) -> Seq<Action> {
        seq![
            Action::RevokeDragDrop(hwnd),
            Action::UnregisterClass(self.window_class),
            Action::DetachState(hwnd),
            Action::ReleaseState,
        ]
    }
}

/// What comes after a message has an answer, where the window's state may have been released: then
/// there are no tasks and there is no teardown, and the answer stands.
pub open spec fn place_settling(
    place: Option<WindowModel>,
    hwnd: Hwnd,
    msg: u32,
    answer: Option<isize>,
) -> Settling {
    match place {
        Some(m) => m.settling(hwnd, msg, answer),
        None => Settling::Exit { teardown: seq![], answer },
    }
}

/// What is there after that.
pub open spec fn place_settled(place: Option<WindowModel>) -> Option<WindowModel> {
    match place {
        Some(m) => Some(m.settled()),
        None => None,
    }
}

} // verus!
