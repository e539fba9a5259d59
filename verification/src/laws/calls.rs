//! What holds of the library's calls, by what goes into them and what comes out.

use vstd::prelude::*;

use crate::action::{Action, Entry, Next, Reaction, ResizeQuery, Settled};
use crate::class::{class_name, generate_guid, guid_text, register_wnd_class, Guid, WindowClass};
use crate::clipboard::{copy_to_clipboard, ClipboardError};
use crate::dpi::{
    get_dpi_for_window, get_initial_dpi, AwarenessContext, DpiAwarenessScope, DpiQuery, ScopeEntry,
};
use crate::event::{Event, MouseCursor, WindowEvent};
use crate::geometry::{
    window_info_changed, PhyPoint, PhySize, Real, Size, WindowInfo, WindowScalePolicy,
};
use crate::handle::{ParentHandle, RawWindowHandle, WindowHandle};
use crate::laws::encoding::{code_points, codes, wide_text_is_the_text_and_a_zero};
use crate::laws::opening::styles_are_written_out;
use crate::laws::reactions::{closing_is_announced, wish_to_close_destroys_the_window};
use crate::message::{decoded, Message};
use crate::model::{Settling, WindowModel};
use crate::open::{
    Created, CreateWindow, Measured, Opening, Ready, Rescaled, Scaling, Sizing, WindowOpenOptions,
};
use crate::placement::{
    client_rect, client_size_to_window_rect, set_window_client_size, ClientSize, WindowPos,
    WindowRect,
};
use crate::slot::WindowSlot;
use crate::state::{wnd_proc, GlContext, WindowState, WindowTask};
use crate::text::to_wide;
use crate::win32::{signed_long, signed_word, Hwnd, Rect, GET_XBUTTON_WPARAM, HIWORD, LOWORD};
use crate::window::Window;

verus! {

/// A window was opened with the options, inside the parent or on its own.
pub open spec fn opened(parent: Option<Hwnd>, options: WindowOpenOptions, opening: Opening) -> bool {
    match parent {
        Some(hwnd) => call_ensures(
            Window::open_parented,
            (RawWindowHandle::Win32 { hwnd }, options),
            opening,
        ),
        None => call_ensures(Window::open_blocking, (options,), opening),
    }
}

/// A window was opened with the options, and its DPI and its size were answered.
pub open spec fn measured_as(
    parent: Option<Hwnd>,
    options: WindowOpenOptions,
    reported: Option<u32>,
    scale: Real,
    physical: PhySize,
    measured: Measured,
) -> bool {
    exists|opening: Opening, sizing: Sizing|
        {
            &&& opened(parent, options, opening)
            &&& #[trigger] call_ensures(Opening::with_dpi, (opening, reported), sizing)
            &&& #[trigger] call_ensures(Sizing::with_size, (sizing, scale, physical), measured)
        }
}

/// The DPI that a report stands for: a failed query counts as 96.
pub open spec fn dpi_of_report(reported: u32) -> u32 {
    if reported == 0 {
        96
    } else {
        reported
    }
}

proof fn measured_plan(
    parent: Option<Hwnd>,
    options: WindowOpenOptions,
    reported: Option<u32>,
    scale: Real,
    physical: PhySize,
    measured: Measured,
)
    requires
        measured_as(parent, options, reported, scale, physical, measured),
    ensures
        ({
            let plan = measured.plan();
            &&& plan.parented == (parent is Some)
            &&& plan.parent.address == match parent {
                Some(hwnd) => hwnd.address,
                None => 0,
            }
            &&& plan.title.len() > 0
            &&& plan.title.last() == 0
            &&& code_points(plan.title.drop_last()) == codes(options.title@)
            &&& plan.size == options.size
            &&& plan.scale_policy == options.scale
            &&& plan.gl == options.gl
            &&& measured.initial_dpi() == match reported {
                Some(reported) => Some(dpi_of_report(reported)),
                None => None,
            }
            &&& measured.info() == (WindowInfo {
                physical_size: physical,
                logical_size: options.size,
                scale,
            })
        }),
{
    wide_text_is_the_text_and_a_zero(options.title@);
    let (opening, sizing) = choose|opening: Opening, sizing: Sizing|
        {
            &&& opened(parent, options, opening)
            &&& #[trigger] call_ensures(Opening::with_dpi, (opening, reported), sizing)
            &&& #[trigger] call_ensures(Sizing::with_size, (sizing, scale, physical), measured)
        };
    assert(opening@ == sizing.plan());
}

/// The window that is asked of the system is the one that the options describe, whether it has a
/// parent or not: it has their title, character by character and ended by a single zero, the class
/// and the extents that were found for it, the style of its kind, and the parent if there is one.
/// It gets a keyboard hook, and an OpenGL context exactly if the options ask for one.
pub proof fn window_is_created_as_asked(
    parent: Option<Hwnd>,
    options: WindowOpenOptions,
    reported: Option<u32>,
    scale: Real,
    physical: PhySize,
    measured: Measured,
    title: &Vec<u16>,
    window_class: u16,
    rect: Rect,
    call: CreateWindow,
    hwnd: Hwnd,
    setup: Vec<Action>,
)
    requires
        measured_as(parent, options, reported, scale, physical, measured),
        call_ensures(Measured::title, (&measured,), title),
        rect.measurable(),
        call_ensures(Measured::create_window, (&measured, window_class, rect), call),
        call_ensures(Measured::setup, (&measured, hwnd), setup),
    ensures
        title@.len() > 0,
        title@.last() == 0,
        code_points(title@.drop_last()) == codes(options.title@),
        call.window_class == window_class,
        call.dw_style == if parent is Some { 0x5000_0000u32 } else { 0x94CF_0000u32 },
        call.x == 0 && call.y == 0,
        call.width == rect.right - rect.left,
        call.height == rect.bottom - rect.top,
        call.parent == match parent {
            Some(hwnd) => hwnd,
            None => Hwnd { address: 0 },
        },
        setup@ == if options.gl {
            seq![Action::InstallKeyboardHook(hwnd), Action::CreateGlContext(hwnd)]
        } else {
            seq![Action::InstallKeyboardHook(hwnd)]
        },
{
    measured_plan(parent, options, reported, scale, physical, measured);
    styles_are_written_out();
}

/// A window that is being opened asks for exactly what it needs. One that follows the system makes
/// the thread aware of each monitor and asks for a DPI, the parent's where there is one; its scale
/// comes from what is reported. One with a scale of its own asks for none of that. Its size is
/// the one of the options.
pub proof fn opening_asks_for_what_it_needs(
    parent: Option<Hwnd>,
    options: WindowOpenOptions,
    opening: Opening,
    awareness: ScopeEntry,
    query: Option<DpiQuery>,
    reported: Option<u32>,
    sizing: Sizing,
    scaling: Scaling,
    size: Size,
)
    requires
        opened(parent, options, opening),
        call_ensures(Opening::dpi_awareness, (&opening,), awareness),
        call_ensures(Opening::dpi_query, (&opening,), query),
        reported is Some <==> query is Some,
        call_ensures(Opening::with_dpi, (opening, reported), sizing),
        call_ensures(Sizing::scaling, (&sizing,), scaling),
        call_ensures(Sizing::size, (&sizing,), size),
    ensures
        size == options.size,
        options.scale matches WindowScalePolicy::ScaleFactor(fixed) ==> {
            &&& awareness == ScopeEntry::Entered(DpiAwarenessScope { previous_context: None })
            &&& query is None
            &&& scaling == Scaling::Factor(fixed)
        },
        options.scale is SystemScaleFactor ==> {
            &&& awareness == ScopeEntry::SetPerMonitorV2
            &&& query == Some(
                if parent is Some && parent != Some(Hwnd { address: 0 }) {
                    DpiQuery::Window(parent->0)
                } else {
                    DpiQuery::System
                },
            )
            &&& scaling == Scaling::Dpi(dpi_of_report(reported->0))
        },
{
}

/// The outer rectangle of a new window is that of its client area for a child. For any other window
/// the system is asked for it, with the style of the window and the DPI that it starts with.
pub proof fn new_window_is_measured(
    parent: Option<Hwnd>,
    options: WindowOpenOptions,
    reported: Option<u32>,
    scale: Real,
    physical: PhySize,
    measured: Measured,
    rect: WindowRect,
)
    requires
        measured_as(parent, options, reported, scale, physical, measured),
        call_ensures(Measured::window_rect, (&measured,), rect),
    ensures
        parent is Some ==> rect == WindowRect::Known(client_rect(physical)),
        parent is None ==> rect == (WindowRect::Adjust {
            rect: client_rect(physical),
            dw_style: 0x94CF_0000,
            dpi: match reported {
                Some(reported) => Some(dpi_of_report(reported)),
                None => None,
            },
        }),
{
    measured_plan(parent, options, reported, scale, physical, measured);
    styles_are_written_out();
}

/// A window that was created is what its options and its creation made it. Its handle refers to
/// it, and is open exactly if it has a parent.
pub proof fn created_window_is_as_asked(
    parent: Option<Hwnd>,
    options: WindowOpenOptions,
    reported: Option<u32>,
    scale: Real,
    physical: PhySize,
    measured: Measured,
    hwnd: Hwnd,
    window_class: u16,
    gl_context: Option<GlContext>,
    created: Created,
    handle: WindowHandle,
)
    requires
        measured_as(parent, options, reported, scale, physical, measured),
        measured.wf(),
        gl_context is Some <==> options.gl,
        call_ensures(Measured::created, (measured, hwnd, window_class, gl_context), (
            created,
            handle,
        )),
    ensures
        handle.of() == hwnd,
        handle.window() == Some(hwnd),
        handle.open() == (parent is Some),
        created.model() == (WindowModel {
            hwnd,
            window_class,
            window_info: WindowInfo {
                physical_size: physical,
                logical_size: options.size,
                scale,
            },
            parent_handle: if parent is Some {
                Some(hwnd)
            } else {
                None
            },
            mouse_button_counter: 0,
            mouse_was_outside_window: true,
            cursor_icon: MouseCursor::Default,
            scale_policy: options.scale,
            dw_style: if parent is Some {
                0x5000_0000
            } else {
                0x94CF_0000
            },
            parented: parent is Some,
            deferred_tasks: seq![],
            gl_context,
        }),
{
    measured_plan(parent, options, reported, scale, physical, measured);
    styles_are_written_out();
}

/// A window with a handler can be dropped onto. Then messages reach it and frames are drawn, and
/// if its actual DPI made a difference its client area is sized again. At last the handler is told
/// the size that the window then has.
pub proof fn created_window_is_attached(
    created: Created,
    ready: Ready,
    first: Vec<Action>,
    query: Option<Hwnd>,
    logical: Size,
    rescaled: Option<Rescaled>,
    state: WindowState,
    actions: Vec<Action>,
    told: Action,
)
    requires
        call_ensures(Created::with_handler, (created,), (ready, first)),
        call_ensures(Ready::dpi_query, (&ready,), query),
        call_ensures(Ready::logical_size, (&ready,), logical),
        rescaled is Some <==> query is Some,
        call_ensures(Ready::attach, (ready, rescaled), (state, actions)),
        call_ensures(WindowState::initial_event, (&state,), told),
    ensures
        ({
            let m = created.model();
            let start = seq![
                Action::AttachState(m.hwnd),
                Action::StartTimer { hwnd: m.hwnd, id: 4242, interval: 15 },
            ];
            let info = WindowInfo {
                physical_size: rescaled->0.physical,
                logical_size: m.window_info.logical_size,
                scale: rescaled->0.scale,
            };
            let news = rescaled is Some && !m.window_info.equals(info);
            &&& first@ == seq![Action::RegisterDropTarget(m.hwnd)]
            &&& query == if m.scale_policy is SystemScaleFactor {
                Some(m.hwnd)
            } else {
                None
            }
            &&& logical == m.window_info.logical_size
            &&& state@ == if news {
                WindowModel { window_info: info, ..m }
            } else {
                m
            }
            &&& actions@ == if news {
                start.push(
                    Action::SetClientSize(
                        ClientSize {
                            hwnd: m.hwnd,
                            client_size: info.physical_size,
                            dw_style: m.dw_style,
                            parented: m.parented,
                            dpi: Some(dpi_of_report(rescaled->0.reported)),
                            position: None,
                        },
                    ),
                )
            } else {
                start
            }
            &&& told == Action::Deliver(Event::Window(WindowEvent::Resized(state@.window_info)))
        }),
{
    let start = seq![
        Action::AttachState(created.model().hwnd),
        Action::StartTimer { hwnd: created.model().hwnd, id: 4242, interval: 15 },
    ];
    assert(start + seq![] =~= start);
    assert(start + ready.correction(rescaled) == actions@);
    if ready.correction(rescaled).len() == 1 {
        assert(actions@ =~= start.push(ready.correction(rescaled)[0]));
    }
}

/// The first decision about a message: a window that is being created shows itself, and any other
/// message goes to the window's state if there is one, and to the default procedure if not.
pub proof fn procedure_is_entered(hwnd: Hwnd, msg: u32, has_state: bool, entry: Entry)
    requires
        call_ensures(wnd_proc, (hwnd, msg, has_state), entry),
    ensures
        msg == 0x01 ==> entry == (Entry::Answer {
            action: Action::PostMessage { hwnd, msg: 0x18 },
            value: 0,
        }),
        msg != 0x01 && has_state ==> entry == Entry::Handle,
        msg != 0x01 && !has_state ==> entry == Entry::CallDefault,
{
}

/// A message is read by its number and parameters, and the window's state reacts to what was read:
/// all of it is done, in order, and nothing else.
pub proof fn message_is_read_and_reacted_to(
    state: &mut WindowState,
    hwnd: Hwnd,
    msg: u32,
    wparam: usize,
    lparam: isize,
    message: Message,
    r: Reaction,
)
    requires
        call_ensures(Message::decode, (msg, wparam, lparam), message),
        call_ensures(WindowState::wnd_proc_inner, (state, hwnd, msg, wparam, lparam), r),
    ensures
        message == decoded(msg, wparam, lparam),
        r.actions@ == old(state)@.reaction(hwnd, message).actions,
        r.next == old(state)@.reaction(hwnd, message).next,
        final(state)@ == old(state)@.reaction(hwnd, message).model,
{
}

/// The message to close is announced to the handler of every window, and the wish to close destroys
/// every window.
pub proof fn window_is_closed(
    state: &mut WindowState,
    hwnd: Hwnd,
    msg: u32,
    wparam: usize,
    lparam: isize,
    r: Reaction,
)
    requires
        call_ensures(WindowState::wnd_proc_inner, (state, hwnd, msg, wparam, lparam), r),
    ensures
        msg == 0x10 ==> {
            &&& r.actions@ == seq![Action::Deliver(Event::Window(WindowEvent::WillClose))]
            &&& r.next == Next::CallDefault
            &&& final(state)@ == old(state)@
        },
        msg == 0x401 ==> {
            &&& r.actions@ == seq![Action::DestroyWindow(hwnd)]
            &&& r.next == Next::Answer(Some(0))
            &&& final(state)@ == old(state)@
        },
{
    closing_is_announced((*state)@, hwnd, wparam, lparam);
    wish_to_close_destroys_the_window((*state)@, hwnd, wparam, lparam);
}

/// Once the handler heard that the pointer left, the pointer counts as outside.
pub proof fn pointer_is_outside_after_it_left(state: &mut WindowState, r: Reaction)
    requires
        call_ensures(WindowState::mouse_left, (state,), r),
    ensures
        r.actions@.len() == 0,
        r.next == Next::Answer(Some(0)),
        final(state)@ == (WindowModel { mouse_was_outside_window: true, ..old(state)@ }),
{
}

/// The handler gets what the keyboard state made of a message. The message is answered unless it
/// is that of a system key going down.
pub proof fn key_event_is_delivered(
    state: &WindowState,
    system_key_down: bool,
    has_event: bool,
    r: Reaction,
)
    requires
        call_ensures(WindowState::keyboard_processed, (state, system_key_down, has_event), r),
    ensures
        has_event ==> r.actions@ == seq![Action::Deliver(Event::Keyboard)],
        !has_event ==> r.actions@.len() == 0,
        system_key_down ==> r.next == Next::Answer(None),
        !system_key_down ==> r.next == Next::Answer(Some(0)),
{
}

/// A new physical size is taken over and told, and one that the window has already is not.
pub proof fn window_takes_its_new_size(
    state: &mut WindowState,
    physical: PhySize,
    logical: Size,
    r: Reaction,
)
    requires
        call_ensures(WindowState::resized, (state, physical, logical), r),
    ensures
        ({
            let m = old(state)@;
            let info = WindowInfo {
                physical_size: physical,
                logical_size: logical,
                scale: m.window_info.scale,
            };
            &&& physical == m.window_info.physical_size ==> {
                &&& r.actions@.len() == 0
                &&& final(state)@ == m
            }
            &&& physical != m.window_info.physical_size ==> {
                &&& r.actions@ == seq![Action::Deliver(Event::Window(WindowEvent::Resized(info)))]
                &&& final(state)@ == (WindowModel { window_info: info, ..m })
            }
            &&& r.next == Next::Answer(None)
        }),
{
}

/// At another DPI the window keeps its logical size, tells its handler what is news, and is sized
/// to what it was told, at that DPI and in its own style. It is moved exactly if it has no parent
/// and a corner was suggested.
pub proof fn window_follows_its_dpi(
    state: &mut WindowState,
    hwnd: Hwnd,
    dpi: u32,
    scale: Real,
    physical: PhySize,
    suggested: Option<PhyPoint>,
    r: Reaction,
)
    requires
        call_ensures(WindowState::dpi_changed, (state, hwnd, dpi, scale, physical, suggested), r),
    ensures
        ({
            let m = old(state)@;
            let info = final(state)@.window_info;
            let sizing = Action::SetClientSize(
                ClientSize {
                    hwnd,
                    client_size: info.physical_size,
                    dw_style: m.dw_style,
                    parented: m.parented,
                    dpi: Some(dpi),
                    position: if m.parented {
                        None
                    } else {
                        suggested
                    },
                },
            );
            &&& info.physical_size == physical
            &&& info.logical_size == m.window_info.logical_size
            &&& info.scale == scale
            &&& final(state)@ == (WindowModel { window_info: info, ..m })
            &&& r.actions@ == if m.window_info.equals(info) {
                seq![sizing]
            } else {
                seq![Action::Deliver(Event::Window(WindowEvent::Resized(info))), sizing]
            }
            &&& r.next == Next::Answer(Some(0))
        }),
{
    let m = (*state)@;
    let info = (*final(state))@.window_info;
    if m.window_info.equals(info) {
        assert(r.actions@ =~= seq![r.actions@.last()]);
    } else {
        assert(r.actions@ =~= seq![
            Action::Deliver(Event::Window(WindowEvent::Resized(info))),
            r.actions@.last(),
        ]);
    }
}

/// At another DPI of its parent the window does the same, and stays where it is.
pub proof fn window_follows_the_dpi_of_its_parent(
    state: &mut WindowState,
    hwnd: Hwnd,
    dpi: u32,
    scale: Real,
    physical: PhySize,
    r: Reaction,
)
    requires
        call_ensures(WindowState::dpi_changed_after_parent, (state, hwnd, dpi, scale, physical), r),
    ensures
        ({
            let m = old(state)@;
            let info = WindowInfo {
                physical_size: physical,
                logical_size: m.window_info.logical_size,
                scale,
            };
            let sizing = Action::SetClientSize(
                ClientSize {
                    hwnd,
                    client_size: final(state)@.window_info.physical_size,
                    dw_style: m.dw_style,
                    parented: m.parented,
                    dpi: Some(dpi),
                    position: None,
                },
            );
            &&& final(state)@.window_info.physical_size == physical
            &&& final(state)@ == if m.window_info.equals(info) {
                m
            } else {
                WindowModel { window_info: info, ..m }
            }
            &&& r.actions@ == if m.window_info.equals(info) {
                seq![sizing]
            } else {
                seq![Action::Deliver(Event::Window(WindowEvent::Resized(info))), sizing]
            }
            &&& r.next == Next::Answer(Some(0))
        }),
{
    let m = (*state)@;
    let info = WindowInfo {
        physical_size: physical,
        logical_size: m.window_info.logical_size,
        scale,
    };
    if m.window_info.equals(info) {
        assert(r.actions@ =~= seq![r.actions@.last()]);
    } else {
        assert(r.actions@ =~= seq![
            Action::Deliver(Event::Window(WindowEvent::Resized(info))),
            r.actions@.last(),
        ]);
    }
}

/// What was reported is the DPI at which the window's logical size is asked for.
pub proof fn reported_dpi_is_asked_for(state: &WindowState, reported: u32, r: Reaction)
    requires
        call_ensures(WindowState::dpi_reported, (state, reported), r),
    ensures
        r.actions@.len() == 0,
        r.next == (Next::ToPhysicalAfterParent {
            logical: state@.window_info.logical_size,
            dpi: dpi_of_report(reported),
        }),
{
}

/// An info is taken over whole if any part of it is new, and the caller told so.
pub proof fn info_is_updated(state: &mut WindowState, info: WindowInfo, changed: bool)
    requires
        call_ensures(WindowState::update_window_info, (state, info), changed),
    ensures
        changed == !old(state)@.window_info.equals(info),
        changed ==> final(state)@ == (WindowModel { window_info: info, ..old(state)@ }),
        !changed ==> final(state)@ == old(state)@,
{
}

/// A size that the handler asks for waits behind those that it asked for before, and nothing else
/// about the window changes.
pub proof fn resize_is_deferred(window: &mut Window<'_>, size: Size)
    requires
        call_ensures(Window::resize, (window, size), ()),
    ensures
        ({
            let m = (*old(window).state)@;
            (*final(window).state)@ == (WindowModel {
                deferred_tasks: m.deferred_tasks.push(WindowTask::Resize(size)),
                ..m
            })
        }),
{
}

/// The size that was asked for is the one that is converted, at the window's present scale, and
/// the size that comes back is the one that the window gets, where it is.
pub proof fn deferred_resize_sizes_the_window(
    state: &WindowState,
    size: Size,
    query: ResizeQuery,
    physical: PhySize,
    reported: Option<u32>,
    wish: ClientSize,
)
    requires
        call_ensures(WindowState::handle_deferred_task, (state, WindowTask::Resize(size)), query),
        reported is Some <==> query.dpi_of is Some,
        call_ensures(WindowState::resize_to, (state, physical, reported), wish),
    ensures
        query.logical == size,
        query.scale == state@.window_info.scale,
        query.dpi_of == if state@.scale_policy is SystemScaleFactor {
            Some(state@.hwnd)
        } else {
            None
        },
        wish.hwnd == state@.hwnd,
        wish.client_size == physical,
        wish.dw_style == state@.dw_style,
        wish.parented == state@.parented,
        wish.dpi == match reported {
            Some(reported) => Some(dpi_of_report(reported)),
            None => None,
        },
        wish.position is None,
{
}

/// The oldest task comes first, and is then gone.
pub proof fn oldest_task_is_taken(state: &mut WindowState, r: Option<WindowTask>)
    requires
        call_ensures(WindowState::next_deferred_task, (state,), r),
    ensures
        ({
            let tasks = old(state)@.deferred_tasks;
            let left = final(state)@.deferred_tasks;
            &&& final(state)@ == (WindowModel { deferred_tasks: left, ..old(state)@ })
            &&& r is None <==> tasks.len() == 0
            &&& tasks == match r {
                Some(task) => seq![task] + left,
                None => left,
            }
        }),
{
    let tasks = (*state)@.deferred_tasks;
    if tasks.len() > 0 {
        assert(tasks =~= seq![tasks.first()] + tasks.drop_first());
    }
}

/// A call goes on with the oldest task. Without one it exits with the answer that its message got,
/// after taking the window down if the window is destroyed.
pub proof fn call_settles(
    state: &mut WindowState,
    hwnd: Hwnd,
    msg: u32,
    answer: Option<isize>,
    r: Settled,
)
    requires
        call_ensures(WindowState::settle, (state, hwnd, msg, answer), r),
    ensures
        ({
            let m = old(state)@;
            let left = final(state)@.deferred_tasks;
            &&& final(state)@ == (WindowModel { deferred_tasks: left, ..m })
            &&& r matches Settled::Task(task) ==> m.deferred_tasks == seq![task] + left
            &&& r matches Settled::Exit { teardown, answer: returned } ==> {
                &&& m.deferred_tasks.len() == 0
                &&& left == m.deferred_tasks
                &&& returned == answer
                &&& msg != 0x82 ==> teardown@.len() == 0
                &&& msg == 0x82 ==> teardown@ == seq![
                    Action::RevokeDragDrop(hwnd),
                    Action::UnregisterClass(m.window_class),
                    Action::DetachState(hwnd),
                    Action::ReleaseState,
                ]
            }
        }),
{
    let m = (*state)@;
    if m.deferred_tasks.len() > 0 {
        assert(m.deferred_tasks =~= seq![m.deferred_tasks.first()] + m.deferred_tasks.drop_first());
    }
    assert(r@ == m.settling(hwnd, msg, answer));
}

/// A place holds the state that it was made with, until that is released. It can be emptied with
/// any handle but another window's.
pub proof fn place_holds_its_state(
    state: WindowState,
    slot: WindowSlot,
    released: bool,
    handle: &WindowHandle,
    state_can: bool,
    slot_can: bool,
)
    requires
        call_ensures(WindowState::can_release, (&state, handle), state_can),
        call_ensures(WindowSlot::new, (state,), slot),
        call_ensures(WindowSlot::is_released, (&slot,), released),
        call_ensures(WindowSlot::can_release, (&slot, handle), slot_can),
    ensures
        slot@ == Some(state@),
        !released,
        state_can == (state@.parent_handle is None || state@.parent_handle == Some(handle.of())),
        slot_can == state_can,
{
}

/// A place that holds a state settles as the state does. An empty one exits at once with the
/// answer that the message got, and stays empty.
pub proof fn place_settles(
    slot: &mut WindowSlot,
    hwnd: Hwnd,
    msg: u32,
    answer: Option<isize>,
    r: Settled,
)
    requires
        call_ensures(WindowSlot::settle, (slot, hwnd, msg, answer), r),
    ensures
        old(slot)@ is None ==> {
            &&& r@ == (Settling::Exit { teardown: seq![], answer })
            &&& final(slot)@ is None
        },
        old(slot)@ matches Some(m) ==> {
            &&& r@ == m.settling(hwnd, msg, answer)
            &&& final(slot)@ == Some(m.settled())
        },
{
}

/// A place gives its state up once. A window that holds the other end of its handle closes it by
/// that; nothing else about the handle changes.
pub proof fn place_is_emptied_once(slot: &mut WindowSlot, handle: &mut WindowHandle, released: bool)
    requires
        old(slot)@ matches Some(m) ==> m.parent_handle is None || m.parent_handle == Some(
            old(handle).of(),
        ),
        call_ensures(WindowSlot::release, (slot, handle), released),
    ensures
        final(slot)@ is None,
        released == (old(slot)@ is Some),
        final(handle).of() == old(handle).of(),
        final(handle).window() == old(handle).window(),
        final(handle).open() == (old(handle).open() && !(old(slot)@ matches Some(m)
            && m.parent_handle is Some)),
{
}

/// The state of a window that is gone closes the handle that it holds an end of.
pub proof fn released_state_closes_its_handle(state: WindowState, handle: &mut WindowHandle)
    requires
        state@.parent_handle is None || state@.parent_handle == Some(old(handle).of()),
        call_ensures(WindowState::release, (state, handle), ()),
    ensures
        final(handle).open() == (old(handle).open() && state@.parent_handle is None),
        final(handle).of() == old(handle).of(),
        final(handle).window() == old(handle).window(),
{
}

/// The two ends of a new handle belong together, and the opener's is open until the window gives
/// its own up.
pub proof fn handle_has_two_ends(
    hwnd: Hwnd,
    parent: ParentHandle,
    handle: WindowHandle,
    open: bool,
    raw: RawWindowHandle,
    other: WindowHandle,
    belongs: bool,
)
    requires
        call_ensures(ParentHandle::new, (hwnd,), (parent, handle)),
        call_ensures(WindowHandle::is_open, (&handle,), open),
        call_ensures(WindowHandle::raw_window_handle, (&handle,), raw),
        call_ensures(ParentHandle::belongs_to, (&parent, &other), belongs),
    ensures
        open,
        raw == (RawWindowHandle::Win32 { hwnd }),
        parent.of() == handle.of(),
        belongs == (other.of() == hwnd),
{
}

/// The window's end of a handle, given up, closes the handle.
pub proof fn end_is_given_up(parent: ParentHandle, handle: &mut WindowHandle)
    requires
        parent.of() == old(handle).of(),
        call_ensures(ParentHandle::release, (parent, handle), ()),
    ensures
        !final(handle).open(),
        final(handle).of() == old(handle).of(),
        final(handle).window() == old(handle).window(),
{
}

/// A handle posts the wish to close to its window the first time only, and knows no window from
/// then on. It stays open for as long as the window is there.
pub proof fn handle_asks_to_close_once(
    handle: &mut WindowHandle,
    r: Option<Action>,
    raw: RawWindowHandle,
)
    requires
        call_ensures(WindowHandle::close, (handle,), r),
    ensures
        r == match old(handle).window() {
            Some(hwnd) => Some(Action::PostMessage { hwnd, msg: 0x401 }),
            None => None,
        },
        final(handle).window() is None,
        final(handle).open() == old(handle).open(),
        final(handle).of() == old(handle).of(),
        call_ensures(WindowHandle::raw_window_handle, (&*final(handle),), raw) ==> raw == (
        RawWindowHandle::Win32 { hwnd: Hwnd { address: 0 } }),
{
}

/// What a handler asks of its window goes to that window, and changes nothing else about it.
pub proof fn window_acts_on_itself(
    window: &mut Window<'_>,
    focused: Hwnd,
    wish: Action,
    has_focus: bool,
    focus: Action,
)
    ensures
        call_ensures(Window::close, (window,), wish) ==> {
            &&& wish == (Action::PostMessage { hwnd: (*old(window).state)@.hwnd, msg: 0x401 })
            &&& *final(window) == *old(window)
        },
        call_ensures(Window::has_focus, (window, focused), has_focus) ==> {
            &&& has_focus == (focused == (*old(window).state)@.hwnd)
            &&& *final(window) == *old(window)
        },
        call_ensures(Window::focus, (window,), focus) ==> {
            &&& focus == Action::SetFocus((*old(window).state)@.hwnd)
            &&& *final(window) == *old(window)
        },
{
}

/// A cursor that the handler chooses is shown at once and remembered.
pub proof fn cursor_is_chosen(window: &mut Window<'_>, cursor: MouseCursor, r: Action)
    requires
        call_ensures(Window::set_mouse_cursor, (window, cursor), r),
    ensures
        r == Action::SetCursor(cursor),
        (*final(window).state)@ == (WindowModel { cursor_icon: cursor, ..(*old(window).state)@ }),
{
}

/// What a window says of itself is so.
pub proof fn window_describes_itself(
    window: &Window<'_>,
    raw: RawWindowHandle,
    info: WindowInfo,
    policy: WindowScalePolicy,
    hwnd: Hwnd,
    context: Option<&GlContext>,
)
    requires
        call_ensures(Window::raw_window_handle, (window,), raw),
        call_ensures(Window::gl_context, (window,), context),
        call_ensures(WindowState::window_info, (&*window.state,), info),
        call_ensures(WindowState::scale_policy, (&*window.state,), policy),
        call_ensures(WindowState::hwnd, (&*window.state,), hwnd),
    ensures
        ({
            let m = window.model();
            &&& raw == (RawWindowHandle::Win32 { hwnd: m.hwnd })
            &&& info == m.window_info
            &&& policy == m.scale_policy
            &&& hwnd == m.hwnd
            &&& context is Some <==> m.gl_context is Some
            &&& context matches Some(held) ==> m.gl_context == Some(*held)
        }),
{
}

/// The message loop goes on until there is an error.
pub proof fn loop_ends_on_an_error(status: i32, goes_on: bool)
    requires
        call_ensures(Window::keeps_pumping, (status,), goes_on),
    ensures
        goes_on <==> status != -1,
{
}

/// A wish for a client area becomes a call that gives the window the extents of its outer
/// rectangle. That is the client area itself for a child, and what the system makes of it for any
/// other window.
pub proof fn client_size_is_set(wish: ClientSize, rect: WindowRect, outer: Rect, pos: WindowPos)
    requires
        call_ensures(ClientSize::window_rect, (&wish,), rect),
        outer.measurable(),
        call_ensures(ClientSize::window_pos, (&wish, outer), pos),
    ensures
        wish.parented ==> rect == WindowRect::Known(client_rect(wish.client_size)),
        !wish.parented ==> rect == (WindowRect::Adjust {
            rect: client_rect(wish.client_size),
            dw_style: wish.dw_style,
            dpi: wish.dpi,
        }),
        pos.hwnd == wish.hwnd,
        pos.width == outer.right - outer.left,
        pos.height == outer.bottom - outer.top,
        wish.position matches Some(corner) ==> {
            &&& pos.x == corner.x && pos.y == corner.y
            &&& pos.flags == 0x14
        },
        wish.position is None ==> pos.x == 0 && pos.y == 0 && pos.flags == 0x16,
{
    assert(0x4u32 | 0x10u32 == 0x14u32 && 0x4u32 | 0x10u32 | 0x2u32 == 0x16u32) by (bit_vector);
}

/// The two halves of that, each by itself.
pub proof fn rectangle_is_found_and_set(
    client_size: PhySize,
    dw_style: u32,
    parented: bool,
    dpi: Option<u32>,
    rect: WindowRect,
    hwnd: Hwnd,
    outer: Rect,
    position: Option<PhyPoint>,
    pos: WindowPos,
)
    requires
        call_ensures(client_size_to_window_rect, (client_size, dw_style, parented, dpi), rect),
        outer.measurable(),
        call_ensures(set_window_client_size, (hwnd, outer, position), pos),
    ensures
        parented ==> rect == WindowRect::Known(client_rect(client_size)),
        !parented ==> rect == (WindowRect::Adjust {
            rect: client_rect(client_size),
            dw_style,
            dpi,
        }),
        pos.hwnd == hwnd,
        pos.width == outer.right - outer.left,
        pos.height == outer.bottom - outer.top,
        position matches Some(corner) ==> {
            &&& pos.x == corner.x && pos.y == corner.y
            &&& pos.flags == 0x14
        },
        position is None ==> pos.x == 0 && pos.y == 0 && pos.flags == 0x16,
{
    assert(0x4u32 | 0x10u32 == 0x14u32 && 0x4u32 | 0x10u32 | 0x2u32 == 0x16u32) by (bit_vector);
}

/// DPI is asked for and gone by as the system reports it.
pub proof fn dpi_is_found(
    reported: u32,
    dpi: u32,
    parented: bool,
    parent: Hwnd,
    query: DpiQuery,
    context: AwarenessContext,
    newer: ScopeEntry,
    older: ScopeEntry,
    scope: DpiAwarenessScope,
    restored: Option<AwarenessContext>,
)
    requires
        call_ensures(get_dpi_for_window, (reported,), dpi),
        call_ensures(get_initial_dpi, (parented, parent), query),
        call_ensures(DpiAwarenessScope::after_v2, (context,), newer),
        call_ensures(DpiAwarenessScope::after_v1, (context,), older),
        call_ensures(DpiAwarenessScope::leave, (scope,), restored),
    ensures
        dpi == dpi_of_report(reported),
        query == if parented && parent.address != 0 {
            DpiQuery::Window(parent)
        } else {
            DpiQuery::System
        },
        context == 0 ==> newer == ScopeEntry::SetPerMonitor,
        context == 0 ==> older == ScopeEntry::Entered(DpiAwarenessScope { previous_context: None }),
        context != 0 ==> newer == older && newer == ScopeEntry::Entered(
            DpiAwarenessScope { previous_context: Some(context) },
        ),
        restored == scope.previous_context,
{
}

/// A change is found in any part of an info, and a text is encoded whole.
pub proof fn values_are_compared_and_encoded(
    a: &WindowInfo,
    b: &WindowInfo,
    changed: bool,
    text: &str,
    encoded: Vec<u16>,
)
    requires
        call_ensures(window_info_changed, (a, b), changed),
        call_ensures(to_wide, (text,), encoded),
    ensures
        changed <==> {
            ||| a.physical_size != b.physical_size
            ||| !a.logical_size.width.equals(b.logical_size.width)
            ||| !a.logical_size.height.equals(b.logical_size.height)
            ||| !a.scale.equals(b.scale)
        },
        encoded@.len() > 0,
        encoded@.last() == 0,
        code_points(encoded@.drop_last()) == codes(text@),
{
    wide_text_is_the_text_and_a_zero(text@);
}

/// Words are the two halves of a number, and a signed reading keeps their bits.
pub proof fn words_are_taken_apart(
    number: u32,
    low: u16,
    high: u16,
    word: u16,
    signed: i32,
    long: i32,
    wparam: usize,
    button: u16,
)
    requires
        call_ensures(LOWORD, (number,), low),
        call_ensures(HIWORD, (number,), high),
        call_ensures(signed_word, (word,), signed),
        call_ensures(signed_long, (number,), long),
        call_ensures(GET_XBUTTON_WPARAM, (wparam,), button),
    ensures
        number == low + 0x1_0000 * high,
        -0x8000 <= signed < 0x8000,
        (signed - word) % 0x1_0000 == 0,
        (long - number) % 0x1_0000_0000 == 0,
        wparam as u32 == number ==> button == high,
{
}

/// Doubles and sizes compare by value, and a rectangle measures the distance of its edges.
pub proof fn values_are_measured(
    a: &Size,
    b: &Size,
    same_width: bool,
    same: bool,
    rect: &Rect,
    measurable: bool,
    width: i32,
    height: i32,
    hwnd: &Hwnd,
    null: bool,
)
    requires
        call_ensures(Real::same_value, (&a.width, &b.width), same_width),
        call_ensures(Size::same_value, (a, b), same),
        call_ensures(Rect::is_measurable, (rect,), measurable),
        rect.measurable(),
        call_ensures(Rect::width, (rect,), width),
        call_ensures(Rect::height, (rect,), height),
        call_ensures(Hwnd::is_null, (hwnd,), null),
    ensures
        same_width == a.width.equals(b.width),
        same == (a.width.equals(b.width) && a.height.equals(b.height)),
        measurable,
        width == rect.right - rect.left,
        height == rect.bottom - rect.top,
        null == (hwnd.address == 0),
{
}

/// An info is made of what it is given, and a scale policy is what it says.
pub proof fn infos_hold_what_they_are_made_of(
    physical: PhySize,
    logical: Size,
    scale: Real,
    one: WindowInfo,
    other: WindowInfo,
    read: (PhySize, Size, Real),
    policy: WindowScalePolicy,
    follows: bool,
    entry: ScopeEntry,
)
    requires
        call_ensures(WindowInfo::from_physical_size, (physical, scale, logical), one),
        call_ensures(WindowInfo::from_logical_size, (logical, scale, physical), other),
        call_ensures(WindowInfo::physical_size, (&one,), read.0),
        call_ensures(WindowInfo::logical_size, (&one,), read.1),
        call_ensures(WindowInfo::scale, (&one,), read.2),
        call_ensures(WindowScalePolicy::follows_system, (&policy,), follows),
        call_ensures(DpiAwarenessScope::for_scale_policy, (policy,), entry),
    ensures
        one == other,
        read == (physical, logical, scale),
        follows == (policy == WindowScalePolicy::SystemScaleFactor),
        follows ==> entry == ScopeEntry::SetPerMonitorV2,
        !follows ==> entry == ScopeEntry::Entered(DpiAwarenessScope { previous_context: None }),
{
}

/// A class has a device context of its own for each window, and the name that its identifier
/// makes.
pub proof fn class_is_registered(guid: &Guid, text: String, class: WindowClass)
    requires
        call_ensures(generate_guid, (guid,), text),
        call_ensures(register_wnd_class, (guid,), class),
    ensures
        text@ == guid_text(*guid),
        class.style == 0x20,
        class.class_name@ == class_name(*guid),
{
}

/// No text can be copied so far.
pub proof fn copying_is_refused(text: &str, r: Result<(), ClipboardError>)
    requires
        call_ensures(copy_to_clipboard, (text,), r),
    ensures
        r == Err::<(), ClipboardError>(ClipboardError::Unsupported),
{
}

} // verus!
