use baseview::action::{Action, Entry, Next, Reaction, ResizeQuery, Settled};
use baseview::event::{
    Event, Keys, MouseButton, MouseCursor, MouseEvent, ScrollDelta, WindowEvent,
};
use baseview::dpi::{DpiQuery, ScopeEntry};
use baseview::geometry::{PhyPoint, PhySize, Real, Size, WindowInfo, WindowScalePolicy};
use baseview::handle::{ParentHandle, RawWindowHandle, WindowHandle};
use baseview::message::Message;
use baseview::open::{Rescaled, Scaling, WindowOpenOptions};
use baseview::placement::{ClientSize, WindowRect};
use baseview::slot::WindowSlot;
use baseview::state::{wnd_proc, GlContext, WindowState, WindowTask};
use baseview::win32::{
    Hwnd, Rect, BV_WINDOW_MUST_CLOSE, WM_CHAR, WM_CLOSE, WM_CREATE, WM_DPICHANGED,
    WM_DPICHANGED_AFTERPARENT, WM_INPUTLANGCHANGE, WM_KEYDOWN, WM_KEYUP, WM_LBUTTONDOWN,
    WM_LBUTTONUP, WM_MBUTTONDOWN, WM_MBUTTONUP, WM_MOUSEHWHEEL, WM_MOUSELEAVE, WM_MOUSEMOVE,
    WM_MOUSEWHEEL, WM_NCDESTROY, WM_RBUTTONDOWN, WM_RBUTTONUP, WM_SETCURSOR, WM_SHOWWINDOW,
    WM_SIZE, WM_SYSCHAR, WM_SYSKEYDOWN, WM_SYSKEYUP, WM_TIMER, WM_XBUTTONDOWN, WM_XBUTTONUP,
};
use baseview::window::Window;

const HWND: Hwnd = Hwnd { address: 0x1000 };
const PARENT: Hwnd = Hwnd { address: 0x2000 };
const CLASS: u16 = 0xC001;

fn double(value: f64) -> Real {
    Real { bits: value.to_bits() }
}

fn size(width: f64, height: f64) -> Size {
    Size { width: double(width), height: double(height) }
}

fn options(scale: WindowScalePolicy, gl: bool) -> WindowOpenOptions {
    WindowOpenOptions { title: "Title".to_string(), size: size(400.0, 300.0), scale, gl }
}

/// Opens a window whose scale is 2, whichever way it is found.
fn open(parented: bool, system: bool) -> (WindowState, WindowHandle) {
    let policy = if system {
        WindowScalePolicy::SystemScaleFactor
    } else {
        WindowScalePolicy::ScaleFactor(double(2.0))
    };
    let opening = if parented {
        Window::open_parented(RawWindowHandle::Win32 { hwnd: PARENT }, options(policy, false))
    } else {
        Window::open_blocking(options(policy, false))
    };
    let reported = if system { Some(192) } else { None };
    let measured =
        opening.with_dpi(reported).with_size(double(2.0), PhySize { width: 800, height: 600 });
    let (created, handle) = measured.created(HWND, CLASS, None);
    let (ready, _) = created.with_handler();
    let rescaled = if system {
        Some(Rescaled {
            reported: 192,
            scale: double(2.0),
            physical: PhySize { width: 800, height: 600 },
        })
    } else {
        None
    };
    (ready.attach(rescaled).0, handle)
}

fn send(state: &mut WindowState, msg: u32, wparam: usize, lparam: isize) -> Reaction {
    state.wnd_proc_inner(HWND, msg, wparam, lparam)
}

fn mouse(event: MouseEvent) -> Action {
    Action::Deliver(Event::Mouse(event))
}

fn resized(width: u32, height: u32, logical: Size, scale: f64) -> Action {
    Action::Deliver(Event::Window(WindowEvent::Resized(WindowInfo {
        physical_size: PhySize { width, height },
        logical_size: logical,
        scale: double(scale),
    })))
}

fn pack(low: i16, high: i16) -> isize {
    ((low as u16 as u32) | ((high as u16 as u32) << 16)) as isize
}

fn check(reaction: Reaction, actions: Vec<Action>, next: Next) {
    assert_eq!(reaction.actions, actions);
    assert_eq!(reaction.next, next);
}

#[test]
fn pointer_enters_moves_and_leaves_in_order() {
    let (mut state, _) = open(true, false);
    let moved = |x, y, wparam| {
        mouse(MouseEvent::CursorMoved { position: PhyPoint { x, y }, modifiers: Keys { wparam } })
    };
    let answered = Next::Answer(Some(0));
    check(
        send(&mut state, WM_MOUSEMOVE, 8, pack(-3, 20)),
        vec![Action::TrackMouseLeave(HWND), mouse(MouseEvent::CursorEntered), moved(-3, 20, 8)],
        answered,
    );
    check(send(&mut state, WM_MOUSEMOVE, 0, pack(5, -32768)), vec![moved(5, -32768, 0)], answered);
    check(
        send(&mut state, WM_MOUSELEAVE, 0, 0),
        vec![mouse(MouseEvent::CursorLeft)],
        Next::MouseLeft,
    );
    check(state.mouse_left(), vec![], answered);
    check(
        send(&mut state, WM_MOUSEMOVE, 0, pack(1, 2)),
        vec![Action::TrackMouseLeave(HWND), mouse(MouseEvent::CursorEntered), moved(1, 2, 0)],
        answered,
    );
}

#[test]
fn wheel_turns_either_axis() {
    let (mut state, _) = open(true, false);
    let scrolled = |x, y, wparam| {
        mouse(MouseEvent::WheelScrolled {
            delta: ScrollDelta::Lines { x, y },
            modifiers: Keys { wparam },
        })
    };
    let up = 120usize << 16;
    let down = 0xFF88_0004usize;
    check(
        send(&mut state, WM_MOUSEWHEEL, up, 0),
        vec![scrolled(0, 120, up)],
        Next::Answer(Some(0)),
    );
    check(
        send(&mut state, WM_MOUSEWHEEL, down, 0),
        vec![scrolled(0, -120, down)],
        Next::Answer(Some(0)),
    );
    check(
        send(&mut state, WM_MOUSEHWHEEL, down, 0),
        vec![scrolled(-120, 0, down)],
        Next::Answer(Some(0)),
    );
}

#[test]
fn capture_lasts_until_the_last_button_is_released() {
    let (mut state, _) = open(true, false);
    let keys = Keys { wparam: 1 };
    let pressed = |button| mouse(MouseEvent::ButtonPressed { button, modifiers: keys });
    let released = |button| mouse(MouseEvent::ButtonReleased { button, modifiers: keys });
    let default = Next::Answer(None);
    check(
        send(&mut state, WM_LBUTTONDOWN, 1, 0),
        vec![Action::SetCapture(HWND), pressed(MouseButton::Left)],
        default,
    );
    check(
        send(&mut state, WM_RBUTTONDOWN, 1, 0),
        vec![Action::SetCapture(HWND), pressed(MouseButton::Right)],
        default,
    );
    check(send(&mut state, WM_LBUTTONUP, 1, 0), vec![released(MouseButton::Left)], default);
    check(
        send(&mut state, WM_RBUTTONUP, 1, 0),
        vec![Action::ReleaseCapture, released(MouseButton::Right)],
        default,
    );
    // A release without a press frees the mouse again.
    check(
        send(&mut state, WM_MBUTTONUP, 1, 0),
        vec![Action::ReleaseCapture, released(MouseButton::Middle)],
        default,
    );
    check(
        send(&mut state, WM_MBUTTONDOWN, 1, 0),
        vec![Action::SetCapture(HWND), pressed(MouseButton::Middle)],
        default,
    );
}

#[test]
fn extra_buttons_are_told_by_the_high_word() {
    let (mut state, _) = open(true, false);
    let back = 1usize << 16;
    let forward = 2usize << 16;
    let pressed = |button, wparam| {
        mouse(MouseEvent::ButtonPressed { button, modifiers: Keys { wparam } })
    };
    check(
        send(&mut state, WM_XBUTTONDOWN, back, 0),
        vec![Action::SetCapture(HWND), pressed(MouseButton::Back, back)],
        Next::Answer(None),
    );
    check(
        send(&mut state, WM_XBUTTONDOWN, forward, 0),
        vec![Action::SetCapture(HWND), pressed(MouseButton::Forward, forward)],
        Next::Answer(None),
    );
    check(send(&mut state, WM_XBUTTONDOWN, 3usize << 16, 0), vec![], Next::Answer(None));
    check(send(&mut state, WM_XBUTTONUP, 0, 0), vec![], Next::Answer(None));
}

#[test]
fn only_the_own_timer_draws() {
    let (mut state, _) = open(true, false);
    check(send(&mut state, WM_TIMER, 4242, 0), vec![Action::DrawFrame], Next::Answer(Some(0)));
    check(send(&mut state, WM_TIMER, 1, 0), vec![], Next::Answer(Some(0)));
}

#[test]
fn closing_is_announced_before_the_default_procedure() {
    let (mut state, _) = open(true, false);
    check(
        send(&mut state, WM_CLOSE, 0, 0),
        vec![Action::Deliver(Event::Window(WindowEvent::WillClose))],
        Next::CallDefault,
    );
    check(
        send(&mut state, BV_WINDOW_MUST_CLOSE, 0, 0),
        vec![Action::DestroyWindow(HWND)],
        Next::Answer(Some(0)),
    );
}

#[test]
fn keyboard_messages_go_through_the_keyboard_state() {
    let (mut state, _) = open(true, false);
    for msg in [WM_CHAR, WM_SYSCHAR, WM_KEYDOWN, WM_KEYUP, WM_SYSKEYUP, WM_INPUTLANGCHANGE] {
        check(
            send(&mut state, msg, 0, 0),
            vec![],
            Next::ProcessKeyboard { system_key_down: false },
        );
    }
    check(
        send(&mut state, WM_SYSKEYDOWN, 0, 0),
        vec![],
        Next::ProcessKeyboard { system_key_down: true },
    );
    let event = Action::Deliver(Event::Keyboard);
    check(state.keyboard_processed(false, true), vec![event], Next::Answer(Some(0)));
    check(state.keyboard_processed(false, false), vec![], Next::Answer(Some(0)));
    check(state.keyboard_processed(true, true), vec![event], Next::Answer(None));
    check(state.keyboard_processed(true, false), vec![], Next::Answer(None));
}

#[test]
fn size_is_reported_once() {
    let (mut state, _) = open(true, false);
    let physical = PhySize { width: 1000, height: 40000 };
    let asked = Next::ToLogical { physical, scale: double(2.0) };
    let lparam = (1000u32 | (40000u32 << 16)) as isize;
    check(send(&mut state, WM_SIZE, 0, lparam), vec![], asked);
    let logical = size(500.0, 20000.0);
    check(
        state.resized(physical, logical),
        vec![resized(1000, 40000, logical, 2.0)],
        Next::Answer(None),
    );
    assert_eq!(state.window_info().physical_size(), physical);
    check(send(&mut state, WM_SIZE, 0, lparam), vec![], asked);
    check(state.resized(physical, size(1.0, 1.0)), vec![], Next::Answer(None));
    assert_eq!(state.window_info().logical_size(), logical);
}

fn client_size(parented: bool, dpi: Option<u32>, position: Option<PhyPoint>) -> ClientSize {
    ClientSize {
        hwnd: HWND,
        client_size: PhySize { width: 400, height: 300 },
        dw_style: if parented { 0x5000_0000 } else { 0x94CF_0000 },
        parented,
        dpi,
        position,
    }
}

#[test]
fn dpi_change_keeps_the_logical_size() {
    let (mut state, _) = open(false, true);
    let logical = size(400.0, 300.0);
    check(
        send(&mut state, WM_DPICHANGED, 96 | (96 << 16), 0),
        vec![],
        Next::ToPhysical { logical, dpi: 96 },
    );
    let physical = PhySize { width: 400, height: 300 };
    let corner = PhyPoint { x: -10, y: 15 };
    check(
        state.dpi_changed(HWND, 96, double(1.0), physical, Some(corner)),
        vec![
            resized(400, 300, logical, 1.0),
            Action::SetClientSize(client_size(false, Some(96), Some(corner))),
        ],
        Next::Answer(Some(0)),
    );
    assert_eq!(state.window_info().logical_size(), logical);
    // Nothing is news the second time, but the window is sized again.
    check(
        state.dpi_changed(HWND, 96, double(1.0), physical, None),
        vec![Action::SetClientSize(client_size(false, Some(96), None))],
        Next::Answer(Some(0)),
    );
}

#[test]
fn child_ignores_the_suggested_corner() {
    let (mut state, _) = open(true, true);
    let physical = PhySize { width: 400, height: 300 };
    let reaction =
        state.dpi_changed(HWND, 96, double(1.0), physical, Some(PhyPoint { x: 1, y: 1 }));
    assert_eq!(
        reaction.actions[1],
        Action::SetClientSize(client_size(true, Some(96), None))
    );
}

#[test]
fn child_follows_the_dpi_of_its_parent() {
    let (mut state, _) = open(true, true);
    let logical = size(400.0, 300.0);
    check(send(&mut state, WM_DPICHANGED_AFTERPARENT, 0, 0), vec![], Next::QueryDpi(HWND));
    check(
        state.dpi_reported(0),
        vec![],
        Next::ToPhysicalAfterParent { logical, dpi: 96 },
    );
    check(
        state.dpi_reported(144),
        vec![],
        Next::ToPhysicalAfterParent { logical, dpi: 144 },
    );
    let physical = PhySize { width: 400, height: 300 };
    check(
        state.dpi_changed_after_parent(HWND, 96, double(1.0), physical),
        vec![
            resized(400, 300, logical, 1.0),
            Action::SetClientSize(client_size(true, Some(96), None)),
        ],
        Next::Answer(Some(0)),
    );
    check(
        state.dpi_changed_after_parent(HWND, 96, double(1.0), physical),
        vec![Action::SetClientSize(client_size(true, Some(96), None))],
        Next::Answer(Some(0)),
    );
}

#[test]
fn window_with_a_fixed_scale_ignores_dpi() {
    let (mut state, _) = open(false, false);
    let before = state.window_info();
    check(send(&mut state, WM_DPICHANGED, 96, 0), vec![], Next::Answer(None));
    check(send(&mut state, WM_DPICHANGED_AFTERPARENT, 0, 0), vec![], Next::Answer(None));
    assert_eq!(state.window_info(), before);
}

#[test]
fn chosen_cursor_is_shown_again() {
    let (mut state, _) = open(true, false);
    check(
        send(&mut state, WM_SETCURSOR, 0, pack(1, 512)),
        vec![Action::SetCursor(MouseCursor::Default)],
        Next::Answer(Some(1)),
    );
    assert_eq!(
        state.create_window().set_mouse_cursor(MouseCursor::Hand),
        Action::SetCursor(MouseCursor::Hand)
    );
    send(&mut state, WM_MOUSEMOVE, 0, 0);
    check(
        send(&mut state, WM_SETCURSOR, 0, pack(1, 512)),
        vec![Action::SetCursor(MouseCursor::Hand)],
        Next::Answer(Some(1)),
    );
    check(send(&mut state, WM_SETCURSOR, 0, pack(2, 1)), vec![], Next::Answer(None));
}

#[test]
fn unknown_messages_are_left_to_the_default_procedure() {
    let (mut state, _) = open(true, false);
    check(send(&mut state, 0x7777, 1, 2), vec![], Next::Answer(None));
    check(send(&mut state, WM_NCDESTROY, 0, 0), vec![], Next::Answer(None));
    assert_eq!(Message::decode(0x7777, 1, 2), Message::Other);
}

#[test]
fn procedure_shows_a_new_window_and_finds_its_state() {
    let show = Entry::Answer {
        action: Action::PostMessage { hwnd: HWND, msg: WM_SHOWWINDOW },
        value: 0,
    };
    assert_eq!(wnd_proc(HWND, WM_CREATE, false), show);
    assert_eq!(wnd_proc(HWND, WM_CREATE, true), show);
    assert_eq!(wnd_proc(HWND, WM_SIZE, false), Entry::CallDefault);
    assert_eq!(wnd_proc(HWND, WM_SIZE, true), Entry::Handle);
}

fn expect_task(settled: Settled, size: Size) {
    match settled {
        Settled::Task(WindowTask::Resize(asked)) => assert_eq!(asked, size),
        Settled::Exit { .. } => panic!("a task is left"),
    }
}

fn expect_exit(settled: Settled, expected: Vec<Action>, value: Option<isize>) {
    match settled {
        Settled::Exit { teardown, answer } => {
            assert_eq!(teardown, expected);
            assert_eq!(answer, value);
        }
        Settled::Task(_) => panic!("no task is left"),
    }
}

#[test]
fn deferred_resizes_are_handled_in_order_before_the_answer() {
    let (mut state, _) = open(true, false);
    let before = state.window_info();
    let first = size(10.0, 20.0);
    let second = size(30.0, 40.0);
    {
        let mut window = state.create_window();
        window.resize(first);
        window.resize(second);
    }
    assert_eq!(state.window_info(), before);
    expect_task(state.settle(HWND, WM_CHAR, Some(0)), first);
    expect_task(state.settle(HWND, WM_CHAR, Some(0)), second);
    expect_exit(state.settle(HWND, WM_CHAR, Some(0)), vec![], Some(0));
    expect_exit(state.settle(HWND, WM_CHAR, None), vec![], None);
    assert_eq!(state.next_deferred_task(), None);
}

#[test]
fn destroyed_window_is_taken_down_after_its_tasks() {
    let (mut state, mut handle) = open(true, false);
    state.create_window().resize(size(1.0, 1.0));
    expect_task(state.settle(HWND, WM_NCDESTROY, None), size(1.0, 1.0));
    expect_exit(
        state.settle(HWND, WM_NCDESTROY, None),
        vec![
            Action::RevokeDragDrop(HWND),
            Action::UnregisterClass(CLASS),
            Action::DetachState(HWND),
            Action::ReleaseState,
        ],
        None,
    );
    assert!(handle.is_open());
    state.release(&mut handle);
    assert!(!handle.is_open());
}

#[test]
fn deferred_resize_asks_for_the_dpi_of_a_system_scaled_window() {
    let (state, _) = open(false, true);
    let wished = size(200.0, 150.0);
    assert_eq!(
        state.handle_deferred_task(WindowTask::Resize(wished)),
        ResizeQuery { logical: wished, scale: double(2.0), dpi_of: Some(HWND) }
    );
    let physical = PhySize { width: 400, height: 300 };
    assert_eq!(state.resize_to(physical, Some(192)), client_size(false, Some(192), None));
    assert_eq!(state.resize_to(physical, Some(0)), client_size(false, Some(96), None));

    let (state, _) = open(true, false);
    assert_eq!(
        state.handle_deferred_task(WindowTask::Resize(wished)),
        ResizeQuery { logical: wished, scale: double(2.0), dpi_of: None }
    );
    assert_eq!(state.resize_to(physical, None), client_size(true, None, None));
}

#[test]
fn window_acts_on_itself() {
    let (mut state, _) = open(true, false);
    let mut window = state.create_window();
    assert_eq!(
        window.close(),
        Action::PostMessage { hwnd: HWND, msg: BV_WINDOW_MUST_CLOSE }
    );
    assert!(window.has_focus(HWND));
    assert!(!window.has_focus(PARENT));
    assert_eq!(window.focus(), Action::SetFocus(HWND));
    assert_eq!(window.raw_window_handle(), RawWindowHandle::Win32 { hwnd: HWND });
    assert_eq!(window.gl_context(), None);
}

#[test]
fn handle_posts_its_wish_to_close_once() {
    let (_, mut handle) = ParentHandle::new(HWND);
    assert!(handle.is_open());
    assert_eq!(handle.raw_window_handle(), RawWindowHandle::Win32 { hwnd: HWND });
    assert_eq!(
        handle.close(),
        Some(Action::PostMessage { hwnd: HWND, msg: BV_WINDOW_MUST_CLOSE })
    );
    assert_eq!(handle.close(), None);
    assert!(handle.is_open());
    assert_eq!(
        handle.raw_window_handle(),
        RawWindowHandle::Win32 { hwnd: Hwnd { address: 0 } }
    );
}

#[test]
fn handle_is_open_until_the_window_lets_go() {
    let (parent, mut handle) = ParentHandle::new(HWND);
    parent.release(&mut handle);
    assert!(!handle.is_open());
    let (state, mut unparented) = open(false, false);
    assert!(!unparented.is_open());
    state.release(&mut unparented);
    assert!(!unparented.is_open());
}

#[test]
fn child_is_opened_stage_by_stage() {
    let parent = RawWindowHandle::Win32 { hwnd: PARENT };
    let opening = Window::open_parented(parent, options(WindowScalePolicy::SystemScaleFactor, true));
    assert_eq!(opening.dpi_awareness(), ScopeEntry::SetPerMonitorV2);
    assert_eq!(opening.dpi_query(), Some(DpiQuery::Window(PARENT)));
    let sizing = opening.with_dpi(Some(0));
    assert_eq!(sizing.scaling(), Scaling::Dpi(96));
    assert_eq!(sizing.size(), size(400.0, 300.0));
    let measured = sizing.with_size(double(1.0), PhySize { width: 400, height: 300 });
    let rect = Rect { left: 0, top: 0, right: 400, bottom: 300 };
    assert_eq!(measured.window_rect(), WindowRect::Known(rect));
    let mut title: Vec<u16> = "Title".encode_utf16().collect();
    title.push(0);
    assert_eq!(measured.title(), &title);
    let create = measured.create_window(CLASS, rect);
    assert_eq!(create.window_class, CLASS);
    assert_eq!(create.dw_style, 0x5000_0000);
    assert_eq!((create.x, create.y, create.width, create.height), (0, 0, 400, 300));
    assert_eq!(create.parent, PARENT);
    assert_eq!(
        measured.setup(HWND),
        vec![Action::InstallKeyboardHook(HWND), Action::CreateGlContext(HWND)]
    );
    let gl = GlContext { handle: 77 };
    let (mut created, handle) = measured.created(HWND, CLASS, Some(gl));
    assert!(handle.is_open());
    assert_eq!(created.create_window().gl_context(), Some(&gl));
    created.create_window().resize(size(5.0, 6.0));
    let (ready, actions) = created.with_handler();
    assert_eq!(actions, vec![Action::RegisterDropTarget(HWND)]);
    assert_eq!(ready.dpi_query(), Some(HWND));
    assert_eq!(ready.logical_size(), size(400.0, 300.0));
    let (mut state, actions) = ready.attach(Some(Rescaled {
        reported: 192,
        scale: double(2.0),
        physical: PhySize { width: 800, height: 600 },
    }));
    assert_eq!(
        actions,
        vec![
            Action::AttachState(HWND),
            Action::StartTimer { hwnd: HWND, id: 4242, interval: 15 },
            Action::SetClientSize(ClientSize {
                hwnd: HWND,
                client_size: PhySize { width: 800, height: 600 },
                dw_style: 0x5000_0000,
                parented: true,
                dpi: Some(192),
                position: None,
            }),
        ]
    );
    assert_eq!(state.initial_event(), resized(800, 600, size(400.0, 300.0), 2.0));
    assert_eq!(state.next_deferred_task(), Some(WindowTask::Resize(size(5.0, 6.0))));
}

#[test]
fn free_window_is_opened_stage_by_stage() {
    let opening =
        Window::open_blocking(options(WindowScalePolicy::ScaleFactor(double(1.5)), false));
    assert!(matches!(opening.dpi_awareness(), ScopeEntry::Entered(_)));
    assert_eq!(opening.dpi_query(), None);
    let sizing = opening.with_dpi(None);
    assert_eq!(sizing.scaling(), Scaling::Factor(double(1.5)));
    let measured = sizing.with_size(double(1.5), PhySize { width: 600, height: 450 });
    assert_eq!(
        measured.window_rect(),
        WindowRect::Adjust {
            rect: Rect { left: 0, top: 0, right: 600, bottom: 450 },
            dw_style: 0x94CF_0000,
            dpi: None,
        }
    );
    let create =
        measured.create_window(CLASS, Rect { left: -8, top: -31, right: 608, bottom: 458 });
    assert_eq!((create.width, create.height), (616, 489));
    assert_eq!(create.parent, Hwnd { address: 0 });
    assert_eq!(measured.setup(HWND), vec![Action::InstallKeyboardHook(HWND)]);
    let (created, handle) = measured.created(HWND, CLASS, None);
    assert!(!handle.is_open());
    let (ready, _) = created.with_handler();
    assert_eq!(ready.dpi_query(), None);
    let (mut state, actions) = ready.attach(None);
    assert_eq!(
        actions,
        vec![
            Action::AttachState(HWND),
            Action::StartTimer { hwnd: HWND, id: 4242, interval: 15 },
        ]
    );
    assert_eq!(state.initial_event(), resized(600, 450, size(400.0, 300.0), 1.5));
    assert_eq!(state.next_deferred_task(), None);
}

#[test]
fn unchanged_dpi_corrects_nothing() {
    let opening = Window::open_blocking(options(WindowScalePolicy::SystemScaleFactor, false));
    assert_eq!(opening.dpi_query(), Some(DpiQuery::System));
    let physical = PhySize { width: 400, height: 300 };
    let (created, _) =
        opening.with_dpi(Some(96)).with_size(double(1.0), physical).created(HWND, CLASS, None);
    let (_, actions) = created
        .with_handler()
        .0
        .attach(Some(Rescaled { reported: 96, scale: double(1.0), physical }));
    assert_eq!(actions.len(), 2);
}

#[test]
fn loop_ends_on_an_error_only() {
    assert!(Window::keeps_pumping(1));
    assert!(Window::keeps_pumping(0));
    assert!(!Window::keeps_pumping(-1));
}

#[test]
fn info_is_taken_over_if_it_is_news() {
    let (mut state, _) = open(true, false);
    let old = state.window_info();
    assert!(!state.update_window_info(old));
    let new = WindowInfo { scale: double(3.0), ..old };
    assert!(state.update_window_info(new));
    assert_eq!(state.window_info(), new);
    assert!(!state.update_window_info(new));
    let nan = WindowInfo { scale: double(f64::NAN), ..old };
    assert!(state.update_window_info(nan));
    assert!(state.update_window_info(nan));
}

#[test]
fn released_window_asks_nothing_more_of_the_calls_around_it() {
    for (msg, answer) in [(BV_WINDOW_MUST_CLOSE, Some(0)), (WM_CLOSE, Some(7))] {
        let (mut state, mut handle) = open(true, false);
        state.create_window().resize(size(1.0, 1.0));
        let mut slot = WindowSlot::new(state);
        assert!(!slot.is_released());
        let reaction = slot.state().unwrap().wnd_proc_inner(HWND, msg, 0, 0);
        assert!(matches!(reaction.next, Next::Answer(Some(0)) | Next::CallDefault));

        // The window is destroyed before the message has its answer.
        expect_task(slot.settle(HWND, WM_NCDESTROY, None), size(1.0, 1.0));
        slot.state().unwrap().create_window().resize(size(2.0, 2.0));
        expect_task(slot.settle(HWND, WM_NCDESTROY, None), size(2.0, 2.0));
        expect_exit(
            slot.settle(HWND, WM_NCDESTROY, None),
            vec![
                Action::RevokeDragDrop(HWND),
                Action::UnregisterClass(CLASS),
                Action::DetachState(HWND),
                Action::ReleaseState,
            ],
            None,
        );
        assert!(slot.can_release(&handle));
        assert!(slot.release(&mut handle));
        assert!(slot.is_released());
        assert!(slot.state().is_none());
        assert!(!handle.is_open());

        expect_exit(slot.settle(HWND, msg, answer), vec![], answer);
        expect_exit(slot.settle(HWND, WM_NCDESTROY, None), vec![], None);
        assert!(slot.can_release(&handle));
        assert!(!slot.release(&mut handle));
        assert!(slot.is_released());
    }
}

#[test]
fn settling_a_held_state_takes_its_tasks_first() {
    let (mut state, _) = open(true, false);
    state.create_window().resize(size(3.0, 4.0));
    let mut slot = WindowSlot::new(state);
    expect_task(slot.settle(HWND, WM_CLOSE, Some(0)), size(3.0, 4.0));
    expect_exit(slot.settle(HWND, WM_CLOSE, Some(0)), vec![], Some(0));
    assert!(!slot.is_released());
}

#[test]
fn handle_ends_belong_together() {
    let (parent, own) = ParentHandle::new(HWND);
    let (_, other) = ParentHandle::new(PARENT);
    assert!(parent.belongs_to(&own));
    assert!(!parent.belongs_to(&other));

    let (state, handle) = open(true, false);
    assert!(state.can_release(&handle));
    assert!(!state.can_release(&other));
    let slot = WindowSlot::new(state);
    assert!(slot.can_release(&handle));
    assert!(!slot.can_release(&other));
    // A window that was not opened in another one holds no end of a handle.
    assert!(open(false, false).0.can_release(&other));
}

#[test]
fn closing_keeps_the_ends_of_a_handle_together() {
    let (parent, mut handle) = ParentHandle::new(HWND);
    assert!(handle.close().is_some());
    assert!(parent.belongs_to(&handle));
    parent.release(&mut handle);
    assert!(!handle.is_open());
}

#[test]
fn dpi_change_and_back_restores_the_info() {
    // A third of a pixel is lost in the rounding, but never taken over.
    let (mut state, _) = open(false, true);
    let home = state.window_info();
    let logical = home.logical_size();
    let mut told = 0;
    let mut count = |reaction: Reaction| {
        for action in reaction.actions {
            if matches!(action, Action::Deliver(Event::Window(WindowEvent::Resized(_)))) {
                told += 1;
            }
        }
    };
    let legs = [
        (128usize, 128.0 / 96.0, PhySize { width: 533, height: 400 }),
        (192usize, 2.0, PhySize { width: 800, height: 600 }),
    ];
    for (dpi, scale, physical) in legs {
        check(
            send(&mut state, WM_DPICHANGED, dpi | (dpi << 16), 0),
            vec![],
            Next::ToPhysical { logical, dpi: dpi as u32 },
        );
        count(state.dpi_changed(HWND, dpi as u32, double(scale), physical, None));
        let lparam = (physical.width | (physical.height << 16)) as isize;
        check(
            send(&mut state, WM_SIZE, 0, lparam),
            vec![],
            Next::ToLogical { physical, scale: double(scale) },
        );
        let back = size(physical.width as f64 / scale, physical.height as f64 / scale);
        count(state.resized(physical, back));
        assert_eq!(state.window_info().logical_size(), logical);
    }
    assert_eq!(state.window_info(), home);
    assert_eq!(told, 2);
}

#[test]
fn mouse_is_freed_when_releases_even_out_presses() {
    let (mut state, _) = open(true, false);
    let course = [
        (WM_LBUTTONDOWN, true),
        (WM_LBUTTONDOWN, true),
        (WM_RBUTTONDOWN, true),
        (WM_LBUTTONUP, false),
        (WM_MBUTTONDOWN, true),
        (WM_RBUTTONUP, false),
        (WM_LBUTTONUP, false),
        (WM_MBUTTONUP, false),
        (WM_LBUTTONDOWN, true),
        (WM_LBUTTONUP, false),
    ];
    let mut held = 0;
    for (msg, down) in course {
        held += if down { 1 } else { -1 };
        let actions = send(&mut state, msg, 0, 0).actions;
        assert_eq!(actions.contains(&Action::SetCapture(HWND)), down);
        assert_eq!(actions.contains(&Action::ReleaseCapture), !down && held == 0);
    }
}
