//! What each message comes to, from its number and parameters on, in whatever state the window is.

use vstd::prelude::*;

use crate::action::{Action, Next, Reaction, Settled};
use crate::event::{Event, Keys, MouseButton, MouseEvent, ScrollDelta, WindowEvent};
use crate::geometry::{PhyPoint, PhySize, Real, Size, WindowInfo};
use crate::laws::input::{
    button_by_number, buttons_are_read_by_number, is_known, low_words_are_read, packed,
    packed_point_is_read_back, packed_size_is_read_back, plain_messages_are_read_by_number,
    wheel_is_read_by_number,
};
use crate::laws::run::{actions_of_message, handled, Replies};
use crate::message::{decoded, Message};
use crate::model::{place_settled, place_settling, Outcome, Settling, WindowModel};
use crate::state::WindowTask;
use crate::win32::{
    Hwnd, BV_WINDOW_MUST_CLOSE, WM_CLOSE, WM_DPICHANGED, WM_DPICHANGED_AFTERPARENT, WM_MOUSEHWHEEL,
    WM_MOUSELEAVE, WM_MOUSEMOVE, WM_MOUSEWHEEL, WM_NCDESTROY, WM_SETCURSOR, WM_SIZE, WM_SYSKEYDOWN,
    WM_TIMER,
};

verus! {

/// A reaction does what its outcome says, all of it and nothing else; a call that settles says
/// what its model does.
pub proof fn outcomes_are_carried_over(reaction: Reaction, outcome: Outcome, settled: Settled)
    ensures
        reaction.realizes(outcome) <==> {
            &&& reaction.actions@ == outcome.actions
            &&& reaction.next == outcome.next
        },
        settled matches Settled::Task(task) ==> settled@ == Settling::Task(task),
        settled matches Settled::Exit { teardown, answer } ==> settled@ == (Settling::Exit {
            teardown: teardown@,
            answer,
        }),
{
}

/// Wherever the pointer moves to, the handler is told the position that the message holds, as the
/// last thing. If the pointer was outside, its leaving is tracked and its entering told first.
pub proof fn pointer_moves_are_reported(
    m: WindowModel,
    hwnd: Hwnd,
    wparam: usize,
    lparam: isize,
    x: i16,
    y: i16,
)
    requires
        (lparam as u32) as int == packed(x as u16, y as u16),
    ensures
        ({
            let r = m.reaction(hwnd, decoded(WM_MOUSEMOVE, wparam, lparam));
            let moved = Action::Deliver(
                Event::Mouse(
                    MouseEvent::CursorMoved {
                        position: PhyPoint { x: x as i32, y: y as i32 },
                        modifiers: Keys { wparam },
                    },
                ),
            );
            &&& r.actions == if m.mouse_was_outside_window {
                seq![
                    Action::TrackMouseLeave(hwnd),
                    Action::Deliver(Event::Mouse(MouseEvent::CursorEntered)),
                    moved,
                ]
            } else {
                seq![moved]
            }
            &&& r.next == Next::Answer(Some(0))
            &&& r.model == (WindowModel { mouse_was_outside_window: false, ..m })
        }),
{
    packed_point_is_read_back(x, y, wparam, lparam);
    let r = m.reaction(hwnd, decoded(WM_MOUSEMOVE, wparam, lparam));
    let moved = r.actions.last();
    if m.mouse_was_outside_window {
        assert(r.actions =~= seq![
            Action::TrackMouseLeave(hwnd),
            Action::Deliver(Event::Mouse(MouseEvent::CursorEntered)),
            moved,
        ]);
    } else {
        assert(r.actions =~= seq![moved]);
    }
}

/// The handler is told that the pointer leaves while it still counts as inside. After that it
/// counts as outside, and nothing else has changed.
pub proof fn pointer_leaving_is_reported(m: WindowModel, hwnd: Hwnd, wparam: usize, lparam: isize)
    ensures
        ({
            let r = m.reaction(hwnd, decoded(WM_MOUSELEAVE, wparam, lparam));
            &&& r.actions == seq![Action::Deliver(Event::Mouse(MouseEvent::CursorLeft))]
            &&& r.next == Next::MouseLeft
            &&& r.model == m
        }),
        ({
            let r = m.after_mouse_left();
            &&& r.actions.len() == 0
            &&& r.next == Next::Answer(Some(0))
            &&& r.model == (WindowModel { mouse_was_outside_window: true, ..m })
        }),
{
    plain_messages_are_read_by_number(wparam, lparam);
}

/// The handler is told how far a wheel was turned, along the axis of that wheel and no other.
pub proof fn wheel_is_reported(
    m: WindowModel,
    hwnd: Hwnd,
    msg: u32,
    wparam: usize,
    lparam: isize,
    low: u16,
    amount: i16,
)
    requires
        msg == WM_MOUSEWHEEL || msg == WM_MOUSEHWHEEL,
        (wparam as u32) as int == packed(low, amount as u16),
    ensures
        ({
            let r = m.reaction(hwnd, decoded(msg, wparam, lparam));
            &&& r.actions.len() == 1
            &&& r.actions[0] matches Action::Deliver(
                Event::Mouse(
                    MouseEvent::WheelScrolled { delta: ScrollDelta::Lines { x, y }, modifiers },
                ),
            ) && {
                &&& msg == WM_MOUSEWHEEL ==> x == 0 && y == amount
                &&& msg == WM_MOUSEHWHEEL ==> x == amount && y == 0
                &&& modifiers == Keys { wparam }
            }
            &&& r.next == Next::Answer(Some(0))
            &&& r.model == m
        }),
{
    wheel_is_read_by_number(wparam, lparam, low, amount);
}

/// A press of any button captures the mouse for the window, is told to the handler with the keys
/// that the message holds, and counts one more button as held.
pub proof fn press_is_reported(
    m: WindowModel,
    hwnd: Hwnd,
    msg: u32,
    wparam: usize,
    lparam: isize,
    low: u16,
    high: u16,
    button: MouseButton,
)
    requires
        (wparam as u32) as int == packed(low, high),
        button_by_number(msg, high) == Some((button, true)),
    ensures
        ({
            let r = m.reaction(hwnd, decoded(msg, wparam, lparam));
            let event = MouseEvent::ButtonPressed { button, modifiers: Keys { wparam } };
            &&& r.actions == seq![Action::SetCapture(hwnd), Action::Deliver(Event::Mouse(event))]
            &&& r.next == Next::Answer(None)
            &&& r.model == (WindowModel {
                mouse_button_counter: r.model.mouse_button_counter,
                ..m
            })
            &&& m.mouse_button_counter < usize::MAX ==> r.model.mouse_button_counter
                == m.mouse_button_counter + 1
            &&& m.mouse_button_counter >= usize::MAX ==> r.model.mouse_button_counter
                == m.mouse_button_counter
        }),
{
    buttons_are_read_by_number(msg, wparam, lparam, low, high);
}

/// A release of any button is told to the handler with the keys that the message holds, and counts
/// one button fewer as held. It frees the mouse, before the handler is told, exactly if no button
/// is held any more.
pub proof fn release_is_reported(
    m: WindowModel,
    hwnd: Hwnd,
    msg: u32,
    wparam: usize,
    lparam: isize,
    low: u16,
    high: u16,
    button: MouseButton,
)
    requires
        (wparam as u32) as int == packed(low, high),
        button_by_number(msg, high) == Some((button, false)),
    ensures
        ({
            let r = m.reaction(hwnd, decoded(msg, wparam, lparam));
            let event = MouseEvent::ButtonReleased { button, modifiers: Keys { wparam } };
            let told = Action::Deliver(Event::Mouse(event));
            &&& m.mouse_button_counter <= 1 ==> r.actions == seq![Action::ReleaseCapture, told]
            &&& m.mouse_button_counter > 1 ==> r.actions == seq![told]
            &&& r.next == Next::Answer(None)
            &&& r.model == (WindowModel {
                mouse_button_counter: r.model.mouse_button_counter,
                ..m
            })
            &&& m.mouse_button_counter > 0 ==> r.model.mouse_button_counter + 1
                == m.mouse_button_counter
            &&& m.mouse_button_counter == 0 ==> r.model.mouse_button_counter == 0
        }),
{
    buttons_are_read_by_number(msg, wparam, lparam, low, high);
    let r = m.reaction(hwnd, decoded(msg, wparam, lparam));
    let told = r.actions.last();
    if m.mouse_button_counter <= 1 {
        assert(r.actions =~= seq![Action::ReleaseCapture, told]);
    } else {
        assert(r.actions =~= seq![told]);
    }
}

/// An extra button without a name is left to the default procedure.
pub proof fn nameless_buttons_are_ignored(
    m: WindowModel,
    hwnd: Hwnd,
    msg: u32,
    wparam: usize,
    lparam: isize,
    low: u16,
    high: u16,
)
    requires
        (wparam as u32) as int == packed(low, high),
        msg == 0x20B || msg == 0x20C,
        high != 1 && high != 2,
    ensures
        ({
            let r = m.reaction(hwnd, decoded(msg, wparam, lparam));
            r.actions.len() == 0 && r.next == Next::Answer(None) && r.model == m
        }),
{
    buttons_are_read_by_number(msg, wparam, lparam, low, high);
}

/// The timer with the window's own number draws one frame, and any other none. Either way the
/// message is answered with zero.
pub proof fn own_timer_draws(m: WindowModel, hwnd: Hwnd, wparam: usize, lparam: isize)
    ensures
        ({
            let r = m.reaction(hwnd, decoded(WM_TIMER, wparam, lparam));
            &&& wparam == 4242 ==> r.actions == seq![Action::DrawFrame]
            &&& wparam != 4242 ==> r.actions.len() == 0
            &&& r.next == Next::Answer(Some(0))
            &&& r.model == m
        }),
{
    plain_messages_are_read_by_number(wparam, lparam);
}

/// In whatever state a window is, the message to close tells the handler so, once and as the only
/// thing that is done, before the default procedure is called.
pub proof fn closing_is_announced(m: WindowModel, hwnd: Hwnd, wparam: usize, lparam: isize)
    ensures
        ({
            let r = m.reaction(hwnd, decoded(WM_CLOSE, wparam, lparam));
            &&& r.actions.len() == 1
            &&& r.actions[0] == Action::Deliver(Event::Window(WindowEvent::WillClose))
            &&& r.next == Next::CallDefault
            &&& r.model == m
        }),
{
    plain_messages_are_read_by_number(wparam, lparam);
}

/// In whatever state a window is, the wish to close it destroys it, and does nothing else. The
/// message is answered with zero.
pub proof fn wish_to_close_destroys_the_window(
    m: WindowModel,
    hwnd: Hwnd,
    wparam: usize,
    lparam: isize,
)
    ensures
        ({
            let r = m.reaction(hwnd, decoded(BV_WINDOW_MUST_CLOSE, wparam, lparam));
            &&& r.actions == seq![Action::DestroyWindow(hwnd)]
            &&& r.next == Next::Answer(Some(0))
            &&& r.model == m
        }),
{
    plain_messages_are_read_by_number(wparam, lparam);
}

/// A window is destroyed only by the wish to close it, and its closing announced only by the
/// message to close, whatever is answered on the way.
pub proof fn closing_has_no_other_cause(
    m: WindowModel,
    hwnd: Hwnd,
    message: Message,
    replies: Replies,
    i: int,
)
    requires
        0 <= i < handled(m, hwnd, message, replies).actions.len(),
    ensures
        ({
            let action = handled(m, hwnd, message, replies).actions[i];
            &&& action is DestroyWindow ==> message is MustClose
            &&& action == Action::Deliver(Event::Window(WindowEvent::WillClose)) ==> message is Close
        }),
{
    reveal(handled);
    actions_of_message(m, hwnd, message, replies);
}

/// The keyboard state is asked about every keyboard message. The handler is told what it makes of
/// the message, if anything. Only a system key that goes down is left to the default procedure
/// too.
pub proof fn keys_are_reported(
    m: WindowModel,
    hwnd: Hwnd,
    msg: u32,
    wparam: usize,
    lparam: isize,
    has_event: bool,
)
    requires
        msg == 0x51 || 0x100 <= msg <= 0x102 || 0x104 <= msg <= 0x106,
    ensures
        ({
            let r = m.reaction(hwnd, decoded(msg, wparam, lparam));
            &&& r.actions.len() == 0
            &&& r.next == (Next::ProcessKeyboard { system_key_down: msg == WM_SYSKEYDOWN })
            &&& r.model == m
        }),
        ({
            let r = m.after_keyboard(msg == WM_SYSKEYDOWN, has_event);
            &&& has_event ==> r.actions == seq![Action::Deliver(Event::Keyboard)]
            &&& !has_event ==> r.actions.len() == 0
            &&& r.next == Next::Answer(if msg == WM_SYSKEYDOWN { None } else { Some(0) })
            &&& r.model == m
        }),
{
    plain_messages_are_read_by_number(wparam, lparam);
}

/// A size message asks what the size that it holds is in logical pixels at the present scale.
pub proof fn sizes_are_asked_for_in_logical_pixels(
    m: WindowModel,
    hwnd: Hwnd,
    wparam: usize,
    lparam: isize,
    width: u16,
    height: u16,
)
    requires
        (lparam as u32) as int == packed(width, height),
    ensures
        ({
            let r = m.reaction(hwnd, decoded(WM_SIZE, wparam, lparam));
            &&& r.actions.len() == 0
            &&& r.next == (Next::ToLogical {
                physical: PhySize { width: width as u32, height: height as u32 },
                scale: m.window_info.scale,
            })
            &&& r.model == m
        }),
{
    packed_size_is_read_back(width, height, wparam, lparam);
}

/// A new size is taken over as it was found, at the present scale, and told to the handler. A size
/// that the window has already changes nothing, and the handler hears nothing of it. The default
/// procedure gets the message either way.
pub proof fn new_size_is_taken_over_and_told(m: WindowModel, physical: PhySize, logical: Size)
    ensures
        ({
            let r = m.after_size(physical, logical);
            let info = r.model.window_info;
            &&& physical == m.window_info.physical_size ==> r.actions.len() == 0 && r.model == m
            &&& physical != m.window_info.physical_size ==> {
                &&& info.physical_size == physical
                &&& info.logical_size == logical
                &&& info.scale == m.window_info.scale
                &&& r.actions == seq![Action::Deliver(Event::Window(WindowEvent::Resized(info)))]
                &&& r.model == (WindowModel { window_info: info, ..m })
            }
            &&& r.next == Next::Answer(None)
        }),
{
}

/// A window that follows the system asks what its logical size is at the DPI that the message
/// holds, or that its own handle has. Any other window leaves the message to the default
/// procedure.
pub proof fn dpi_messages_ask_for_the_present_size(
    m: WindowModel,
    hwnd: Hwnd,
    wparam: usize,
    lparam: isize,
    dpi: u16,
    high: u16,
    reported: u32,
)
    requires
        (wparam as u32) as int == packed(dpi, high),
    ensures
        ({
            let follows = m.scale_policy is SystemScaleFactor;
            let logical = m.window_info.logical_size;
            let changed = m.reaction(hwnd, decoded(WM_DPICHANGED, wparam, lparam));
            let after_parent = m.reaction(
                hwnd,
                decoded(WM_DPICHANGED_AFTERPARENT, wparam, lparam),
            );
            let asked = m.after_dpi_reported(reported);
            &&& changed.actions.len() == 0 && changed.model == m
            &&& after_parent.actions.len() == 0 && after_parent.model == m
            &&& asked.actions.len() == 0 && asked.model == m
            &&& follows ==> {
                &&& changed.next == (Next::ToPhysical { logical, dpi: dpi as u32 })
                &&& after_parent.next == Next::QueryDpi(hwnd)
            }
            &&& !follows ==> {
                &&& changed.next == Next::Answer(None)
                &&& after_parent.next == Next::Answer(None)
            }
            &&& asked.next matches Next::ToPhysicalAfterParent { logical: of, dpi: at } && {
                &&& of == logical
                &&& reported != 0 ==> at == reported
                &&& reported == 0 ==> at == 96
            }
        }),
{
    low_words_are_read(
        wparam,
        lparam,
        dpi,
        high,
        ((lparam as u32) % 0x1_0000) as u16,
        ((lparam as u32) / 0x1_0000) as u16,
    );
    plain_messages_are_read_by_number(wparam, lparam);
}

/// The wish for another DPI sizes the window that the message is about, in its own style and
/// parentage, to the physical size that it has from then on.
pub open spec fn sizes_to_its_info(
    action: Action,
    m: WindowModel,
    later: WindowModel,
    hwnd: Hwnd,
    dpi: u32,
    corner: Option<PhyPoint>,
) -> bool {
    action matches Action::SetClientSize(wish) && {
        &&& wish.hwnd == hwnd
        &&& wish.client_size == later.window_info.physical_size
        &&& wish.dw_style == m.dw_style
        &&& wish.parented == m.parented
        &&& wish.dpi == Some(dpi)
        &&& wish.position == corner
    }
}

/// All that comes before the last action of a message about DPI: the handler is told the info that
/// the window has from then on, exactly if it differs from the one before.
pub open spec fn tells_its_info(actions: Seq<Action>, m: WindowModel, later: WindowModel) -> bool {
    if m.window_info.equals(later.window_info) {
        actions.len() == 0
    } else {
        actions == seq![
            Action::Deliver(Event::Window(WindowEvent::Resized(later.window_info))),
        ]
    }
}

/// A window that follows the system keeps its logical size at another DPI, takes over the scale
/// and the physical size that go with it, tells its handler if that is news, and at last has its
/// client area sized to that physical size. It moves to the corner that the system suggests exactly
/// if it has no parent.
pub proof fn dpi_change_sizes_the_window(
    m: WindowModel,
    hwnd: Hwnd,
    dpi: u32,
    scale: Real,
    physical: PhySize,
    suggested: Option<PhyPoint>,
)
    ensures
        ({
            let r = m.after_dpi_changed(hwnd, dpi, scale, physical, suggested);
            let info = r.model.window_info;
            &&& info.logical_size == m.window_info.logical_size
            &&& info.physical_size == physical
            &&& info.scale == scale
            &&& r.model == (WindowModel { window_info: info, ..m })
            &&& r.actions.len() > 0
            &&& sizes_to_its_info(
                r.actions.last(),
                m,
                r.model,
                hwnd,
                dpi,
                if m.parented { None } else { suggested },
            )
            &&& tells_its_info(r.actions.drop_last(), m, r.model)
            &&& r.next == Next::Answer(Some(0))
        }),
{
    let r = m.after_dpi_changed(hwnd, dpi, scale, physical, suggested);
    assert(r.actions.drop_last() =~= m.news(r.model.window_info));
}

/// A window whose parent has another DPI does the same, and never moves.
pub proof fn dpi_change_of_the_parent_sizes_the_window(
    m: WindowModel,
    hwnd: Hwnd,
    dpi: u32,
    scale: Real,
    physical: PhySize,
)
    ensures
        ({
            let r = m.after_dpi_changed_after_parent(hwnd, dpi, scale, physical);
            let info = r.model.window_info;
            let news = WindowInfo {
                physical_size: physical,
                logical_size: m.window_info.logical_size,
                scale,
            };
            &&& info.logical_size == m.window_info.logical_size
            &&& info.physical_size == physical
            &&& if m.window_info.equals(news) { info == m.window_info } else { info == news }
            &&& r.model == (WindowModel { window_info: info, ..m })
            &&& r.actions.len() > 0
            &&& sizes_to_its_info(r.actions.last(), m, r.model, hwnd, dpi, None)
            &&& r.actions.drop_last() == if m.window_info.equals(news) {
                seq![]
            } else {
                seq![Action::Deliver(Event::Window(WindowEvent::Resized(info)))]
            }
            &&& r.next == Next::Answer(Some(0))
        }),
{
    let r = m.after_dpi_changed_after_parent(hwnd, dpi, scale, physical);
    assert(r.actions.drop_last() =~= m.news(m.rescaled_info(scale, physical)));
}

/// From the message to its answer: whenever a message about DPI is answered for a window that
/// follows the system, the last thing that is done sizes the window to the physical size of its
/// info, at the new DPI, and moves it exactly if it has no parent and the message suggests a
/// corner.
pub proof fn dpi_message_ends_in_a_sizing(
    m: WindowModel,
    hwnd: Hwnd,
    msg: u32,
    wparam: usize,
    lparam: isize,
    low: u16,
    high: u16,
    replies: Replies,
)
    requires
        m.scale_policy is SystemScaleFactor,
        msg == WM_DPICHANGED || msg == WM_DPICHANGED_AFTERPARENT,
        (wparam as u32) as int == packed(low, high),
    ensures
        ({
            let r = handled(m, hwnd, decoded(msg, wparam, lparam), replies);
            let dpi = if msg == WM_DPICHANGED {
                low as u32
            } else if replies.reported == 0 {
                96u32
            } else {
                replies.reported
            };
            let corner = if msg == WM_DPICHANGED && !m.parented {
                replies.suggested
            } else {
                None
            };
            &&& r.actions.len() > 0
            &&& sizes_to_its_info(r.actions.last(), m, r.model, hwnd, dpi, corner)
            &&& r.model.window_info.physical_size == replies.physical
            &&& r.model.window_info.logical_size == m.window_info.logical_size
            &&& r.next == Next::Answer(Some(0))
        }),
{
    reveal(handled);
    dpi_messages_ask_for_the_present_size(m, hwnd, wparam, lparam, low, high, replies.reported);
    let message = decoded(msg, wparam, lparam);
    let first = m.reaction(hwnd, message);
    if msg == WM_DPICHANGED {
        dpi_change_sizes_the_window(
            m,
            hwnd,
            low as u32,
            replies.scale,
            replies.physical,
            replies.suggested,
        );
        let last = m.after_dpi_changed(
            hwnd,
            low as u32,
            replies.scale,
            replies.physical,
            replies.suggested,
        );
        assert(first.actions + last.actions =~= last.actions);
    } else {
        let asked = m.after_dpi_reported(replies.reported);
        let dpi = if replies.reported == 0 { 96u32 } else { replies.reported };
        dpi_change_of_the_parent_sizes_the_window(
            m,
            hwnd,
            dpi,
            replies.scale,
            replies.physical,
        );
        let last = m.after_dpi_changed_after_parent(
            hwnd,
            dpi,
            replies.scale,
            replies.physical,
        );
        assert((first.actions + asked.actions) + last.actions =~= last.actions);
    }
}

/// A window with a scale of its own does nothing about DPI, and the default procedure answers.
pub proof fn fixed_scale_ignores_dpi(m: WindowModel, hwnd: Hwnd, message: Message, replies: Replies)
    requires
        !(m.scale_policy is SystemScaleFactor),
        message is DpiChanged || message is DpiChangedAfterParent,
    ensures
        ({
            let r = handled(m, hwnd, message, replies);
            r.actions.len() == 0 && r.next == Next::Answer(None) && r.model == m
        }),
{
    reveal(handled);
}

/// Over its client area the window shows the cursor that was chosen last and answers with one.
/// Elsewhere it does nothing, and the default procedure answers.
pub proof fn cursor_is_shown_over_the_client_area(
    m: WindowModel,
    hwnd: Hwnd,
    wparam: usize,
    lparam: isize,
    place: u16,
    high: u16,
)
    requires
        (lparam as u32) as int == packed(place, high),
    ensures
        ({
            let r = m.reaction(hwnd, decoded(WM_SETCURSOR, wparam, lparam));
            &&& place == 1 ==> {
                &&& r.actions == seq![Action::SetCursor(m.cursor_icon)]
                &&& r.next == Next::Answer(Some(1))
            }
            &&& place != 1 ==> r.actions.len() == 0 && r.next == Next::Answer(None)
            &&& r.model == m
        }),
{
    low_words_are_read(
        wparam,
        lparam,
        ((wparam as u32) % 0x1_0000) as u16,
        ((wparam as u32) / 0x1_0000) as u16,
        place,
        high,
    );
}

/// A message of any other number is left to the default procedure.
pub proof fn other_messages_are_left_alone(
    m: WindowModel,
    hwnd: Hwnd,
    msg: u32,
    wparam: usize,
    lparam: isize,
)
    requires
        !is_known(msg),
    ensures
        ({
            let r = m.reaction(hwnd, decoded(msg, wparam, lparam));
            r.actions.len() == 0 && r.next == Next::Answer(None) && r.model == m
        }),
{
    plain_messages_are_read_by_number(wparam, lparam);
}

/// Taking up a resize asks for the conversion of exactly the size that was wished for, at the
/// window's present scale, and for the DPI of the window itself exactly if it follows the system.
/// The wish that follows sizes the window itself to the physical size that was answered, without
/// moving it.
pub proof fn resize_is_carried_out(
    m: WindowModel,
    size: Size,
    physical: PhySize,
    reported: Option<u32>,
)
    ensures
        m.resize_query(size).logical == size,
        m.resize_query(size).scale == m.window_info.scale,
        m.scale_policy is SystemScaleFactor ==> m.resize_query(size).dpi_of == Some(m.hwnd),
        !(m.scale_policy is SystemScaleFactor) ==> m.resize_query(size).dpi_of is None,
        ({
            let wish = m.resize_wish(physical, reported);
            &&& wish.hwnd == m.hwnd
            &&& wish.client_size == physical
            &&& wish.dw_style == m.dw_style
            &&& wish.parented == m.parented
            &&& wish.position is None
            &&& reported is None ==> wish.dpi is None
            &&& reported == Some(0u32) ==> wish.dpi == Some(96u32)
            &&& reported is Some && reported != Some(0u32) ==> wish.dpi == reported
        }),
{
}

/// A call of the window procedure takes up the oldest task, and nothing of the state changes but
/// that the task is gone. Without a task nothing changes, and the call exits with the answer that
/// the message got; a destroyed window is then taken down, for good and in order.
pub proof fn call_takes_tasks_and_exits(
    m: WindowModel,
    hwnd: Hwnd,
    msg: u32,
    answer: Option<isize>,
    task: WindowTask,
    rest: Seq<WindowTask>,
)
    ensures
        m.deferred_tasks == seq![task] + rest ==> {
            &&& m.settling(hwnd, msg, answer) == Settling::Task(task)
            &&& m.settled() == (WindowModel { deferred_tasks: rest, ..m })
            &&& m.without_first_task() == (WindowModel { deferred_tasks: rest, ..m })
        },
        m.deferred_tasks.len() == 0 ==> {
            &&& m.settled() == m
            &&& m.settling(hwnd, msg, answer) matches Settling::Exit { teardown, answer: returned }
                && {
                &&& returned == answer
                &&& msg != WM_NCDESTROY ==> teardown.len() == 0
                &&& msg == WM_NCDESTROY ==> teardown == seq![
                    Action::RevokeDragDrop(hwnd),
                    Action::UnregisterClass(m.window_class),
                    Action::DetachState(hwnd),
                    Action::ReleaseState,
                ]
            }
        },
        place_settling(Some(m), hwnd, msg, answer) == m.settling(hwnd, msg, answer),
        place_settled(Some(m)) == Some(m.settled()),
{
    if m.deferred_tasks == seq![task] + rest {
        assert(m.deferred_tasks.drop_first() =~= rest);
    }
}

/// A window lets go only of the handle that it holds an end of, if it holds one.
pub proof fn only_the_own_handle_is_released(m: WindowModel, of: Hwnd)
    ensures
        m.parent_handle is None ==> m.releases(of),
        m.parent_handle matches Some(held) ==> (m.releases(of) <==> held == of),
{
}

} // verus!
