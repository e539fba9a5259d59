//! What holds of a window over any course of messages and requests.

use vstd::prelude::*;

use crate::action::{Action, Next};
use crate::event::{Event, Keys, MouseButton, MouseCursor, MouseEvent, WindowEvent};
use crate::geometry::{PhyPoint, PhySize, Real, Size, WindowInfo};
use crate::handle::open_after_release;
use crate::laws::numbers::equal_infos_are_transitive;
use crate::message::Message;
use crate::model::{Outcome, Settling, WindowModel};
use crate::state::WindowTask;
use crate::win32::{Hwnd, WM_NCDESTROY};

verus! {

/// What the surroundings answer, should they be asked.
pub ghost struct Replies {
    pub logical: Size,
    pub scale: Real,
    pub physical: PhySize,
    pub suggested: Option<PhyPoint>,
    pub reported: u32,
    pub has_key_event: bool,
    pub default_value: isize,
}

impl Outcome {
    /// This outcome, and then the other.
    pub open spec fn followed_by(self, other: Outcome) -> Outcome {
        Outcome { actions: self.actions + other.actions, ..other }
    }

    /// The outcome once its question was answered.
    pub open spec fn resumed(self, hwnd: Hwnd, replies: Replies) -> Outcome {
        match self.next {
            Next::Answer(_) => self,
            Next::CallDefault => Outcome {
                next: Next::Answer(Some(replies.default_value)),
                ..self
            },
            Next::MouseLeft => self.followed_by(self.model.after_mouse_left()),
            Next::ProcessKeyboard { system_key_down } => self.followed_by(
                self.model.after_keyboard(system_key_down, replies.has_key_event),
            ),
            Next::ToLogical { physical, .. } => self.followed_by(
                self.model.after_size(physical, replies.logical),
            ),
            Next::ToPhysical { dpi, .. } => self.followed_by(
                self.model.after_dpi_changed(
                    hwnd,
                    dpi,
                    replies.scale,
                    replies.physical,
                    replies.suggested,
                ),
            ),
            Next::QueryDpi(_) => self.followed_by(self.model.after_dpi_reported(replies.reported)),
            Next::ToPhysicalAfterParent { dpi, .. } => self.followed_by(
                self.model.after_dpi_changed_after_parent(
                    hwnd,
                    dpi,
                    replies.scale,
                    replies.physical,
                ),
            ),
        }
    }
}

/// All that comes of a message, with the answers to what is asked on the way.
#[verifier::opaque]
pub open spec fn handled(m: WindowModel, hwnd: Hwnd, message: Message, replies: Replies) -> Outcome {
    m.reaction(hwnd, message).resumed(hwnd, replies).resumed(hwnd, replies)
}

/// Something that happens to a window.
pub ghost enum Step {
    Message { hwnd: Hwnd, message: Message, replies: Replies },
    /// The handler asks for another size.
    Resize(Size),
    /// The handler asks for another cursor.
    SetCursor(MouseCursor),
    /// The oldest task is taken up.
    TakeTask,
}

/// The state after a step.
pub open spec fn after(m: WindowModel, step: Step) -> WindowModel {
    match step {
        Step::Message { hwnd, message, replies } => handled(m, hwnd, message, replies).model,
        Step::Resize(size) => WindowModel {
            deferred_tasks: m.deferred_tasks.push(WindowTask::Resize(size)),
            ..m
        },
        Step::SetCursor(cursor) => WindowModel { cursor_icon: cursor, ..m },
        Step::TakeTask => m.settled(),
    }
}

/// What is done at a step.
pub open spec fn done(m: WindowModel, step: Step) -> Seq<Action> {
    match step {
        Step::Message { hwnd, message, replies } => handled(m, hwnd, message, replies).actions,
        Step::SetCursor(cursor) => seq![Action::SetCursor(cursor)],
        _ => seq![],
    }
}

/// The state after a course of steps.
pub open spec fn run(m: WindowModel, steps: Seq<Step>) -> WindowModel
    decreases steps.len(),
{
    if steps.len() == 0 {
        m
    } else {
        after(run(m, steps.drop_last()), steps.last())
    }
}

/// What is done over a course of steps.
pub open spec fn trace(m: WindowModel, steps: Seq<Step>) -> Seq<Action>
    decreases steps.len(),
{
    if steps.len() == 0 {
        seq![]
    } else {
        trace(m, steps.drop_last()) + done(run(m, steps.drop_last()), steps.last())
    }
}

/// Whatever message comes, once what is asked on the way is answered, it has an answer itself.
pub proof fn every_message_is_answered(
    m: WindowModel,
    hwnd: Hwnd,
    message: Message,
    replies: Replies,
)
    ensures
        handled(m, hwnd, message, replies).next is Answer,
{
    reveal(handled);
}

/// What becomes of the state at a message, written out.
pub proof fn state_after_message(m: WindowModel, hwnd: Hwnd, message: Message, replies: Replies)
    ensures
        handled(m, hwnd, message, replies).model == (WindowModel {
            mouse_was_outside_window: match message {
                Message::MouseMove { .. } => false,
                Message::MouseLeave => true,
                _ => m.mouse_was_outside_window,
            },
            mouse_button_counter: match message {
                Message::Button { button: Some(_), pressed, .. } => if pressed {
                    if m.mouse_button_counter < usize::MAX {
                        m.mouse_button_counter + 1
                    } else {
                        m.mouse_button_counter
                    }
                } else if m.mouse_button_counter > 0 {
                    (m.mouse_button_counter - 1) as nat
                } else {
                    0
                },
                _ => m.mouse_button_counter,
            },
            window_info: match message {
                Message::Size(physical) => if physical == m.window_info.physical_size {
                    m.window_info
                } else {
                    WindowInfo {
                        physical_size: physical,
                        logical_size: replies.logical,
                        scale: m.window_info.scale,
                    }
                },
                Message::DpiChanged { .. } | Message::DpiChangedAfterParent => {
                    let info = WindowInfo {
                        physical_size: replies.physical,
                        logical_size: m.window_info.logical_size,
                        scale: replies.scale,
                    };
                    if !(m.scale_policy is SystemScaleFactor) {
                        m.window_info
                    } else if message is DpiChangedAfterParent && m.window_info.equals(info) {
                        m.window_info
                    } else {
                        info
                    }
                },
                _ => m.window_info,
            },
            ..m
        }),
{
    reveal(handled);
}

/// What becomes of the state at any step, as far as a message has a part in it.
proof fn message_step(m: WindowModel, step: Step)
    ensures
        step matches Step::Message { hwnd, message, replies } ==> {
            let n = handled(m, hwnd, message, replies).model;
            &&& n.hwnd == m.hwnd
            &&& n.window_class == m.window_class
            &&& n.parent_handle == m.parent_handle
            &&& n.scale_policy == m.scale_policy
            &&& n.dw_style == m.dw_style
            &&& n.parented == m.parented
            &&& n.gl_context == m.gl_context
            &&& n.cursor_icon == m.cursor_icon
            &&& n.deferred_tasks == m.deferred_tasks
        },
{
    if let Step::Message { hwnd, message, replies } = step {
        state_after_message(m, hwnd, message, replies);
    }
}

/// What a window was opened with stays as it is.
pub proof fn settings_never_change(m: WindowModel, steps: Seq<Step>)
    ensures
        ({
            let n = run(m, steps);
            &&& n.hwnd == m.hwnd
            &&& n.window_class == m.window_class
            &&& n.parent_handle == m.parent_handle
            &&& n.scale_policy == m.scale_policy
            &&& n.dw_style == m.dw_style
            &&& n.parented == m.parented
            &&& n.gl_context == m.gl_context
        }),
    decreases steps.len(),
{
    if steps.len() > 0 {
        settings_never_change(m, steps.drop_last());
        message_step(run(m, steps.drop_last()), steps.last());
    }
}

/// Whether the pointer is inside the window, by what the handler hears of it.
pub open spec fn pointer_after(inside: bool, action: Action) -> bool {
    match action {
        Action::Deliver(Event::Mouse(MouseEvent::CursorEntered)) => true,
        Action::Deliver(Event::Mouse(MouseEvent::CursorLeft)) => false,
        _ => inside,
    }
}

/// Whether the handler can be told so: the pointer comes in from outside, and it moves inside.
pub open spec fn pointer_allows(inside: bool, action: Action) -> bool {
    match action {
        Action::Deliver(Event::Mouse(MouseEvent::CursorEntered)) => !inside,
        Action::Deliver(Event::Mouse(MouseEvent::CursorMoved { .. })) => inside,
        _ => true,
    }
}

/// The last the handler heard is that the pointer came in.
pub open spec fn pointer_inside(actions: Seq<Action>) -> bool
    decreases actions.len(),
{
    actions.len() > 0 && pointer_after(pointer_inside(actions.drop_last()), actions.last())
}

/// All that the handler heard of the pointer came in order.
pub open spec fn pointer_in_order(actions: Seq<Action>) -> bool
    decreases actions.len(),
{
    actions.len() == 0 || {
        &&& pointer_in_order(actions.drop_last())
        &&& pointer_allows(pointer_inside(actions.drop_last()), actions.last())
    }
}

/// Whether the window has the mouse captured.
pub open spec fn capture_after(captured: bool, action: Action) -> bool {
    match action {
        Action::SetCapture(_) => true,
        Action::ReleaseCapture => false,
        _ => captured,
    }
}

/// The mouse was captured, and not released since.
pub open spec fn mouse_captured(actions: Seq<Action>) -> bool
    decreases actions.len(),
{
    actions.len() > 0 && capture_after(mouse_captured(actions.drop_last()), actions.last())
}

/// What the handler knows of the window's size.
pub open spec fn told_after(known: WindowInfo, action: Action) -> WindowInfo {
    match action {
        Action::Deliver(Event::Window(WindowEvent::Resized(info))) => info,
        _ => known,
    }
}

/// The last info that the handler was told, where it knew `known` before.
pub open spec fn told(known: WindowInfo, actions: Seq<Action>) -> WindowInfo
    decreases actions.len(),
{
    if actions.len() == 0 {
        known
    } else {
        told_after(told(known, actions.drop_last()), actions.last())
    }
}

proof fn pushed(actions: Seq<Action>, action: Action, known: WindowInfo)
    ensures
        pointer_inside(actions.push(action)) == pointer_after(pointer_inside(actions), action),
        pointer_in_order(actions.push(action)) == (pointer_in_order(actions) && pointer_allows(
            pointer_inside(actions),
            action,
        )),
        mouse_captured(actions.push(action)) == capture_after(mouse_captured(actions), action),
        told(known, actions.push(action)) == told_after(told(known, actions), action),
{
    assert(actions.push(action).drop_last() == actions);
}

/// The actions of one step, appended one by one.
proof fn appended(actions: Seq<Action>, d: Seq<Action>, known: WindowInfo)
    requires
        d.len() <= 3,
    ensures
        d.len() == 0 ==> actions + d == actions,
        d.len() >= 1 ==> {
            let inside = pointer_after(pointer_inside(actions), d[0]);
            let in_order = pointer_in_order(actions) && pointer_allows(pointer_inside(actions), d[0]);
            let captured = capture_after(mouse_captured(actions), d[0]);
            let info = told_after(told(known, actions), d[0]);
            &&& d.len() == 1 ==> {
                &&& pointer_inside(actions + d) == inside
                &&& pointer_in_order(actions + d) == in_order
                &&& mouse_captured(actions + d) == captured
                &&& told(known, actions + d) == info
            }
            &&& d.len() == 2 ==> {
                &&& pointer_inside(actions + d) == pointer_after(inside, d[1])
                &&& pointer_in_order(actions + d) == (in_order && pointer_allows(inside, d[1]))
                &&& mouse_captured(actions + d) == capture_after(captured, d[1])
                &&& told(known, actions + d) == told_after(info, d[1])
            }
            &&& d.len() == 3 ==> {
                &&& pointer_inside(actions + d) == pointer_after(pointer_after(inside, d[1]), d[2])
                &&& pointer_in_order(actions + d) == (in_order && pointer_allows(inside, d[1])
                    && pointer_allows(pointer_after(inside, d[1]), d[2]))
                &&& mouse_captured(actions + d) == capture_after(capture_after(captured, d[1]), d[2])
                &&& told(known, actions + d) == told_after(told_after(info, d[1]), d[2])
            }
        },
{
    if d.len() == 0 {
        assert(actions + d == actions);
    } else {
        let one = actions.push(d[0]);
        pushed(actions, d[0], known);
        if d.len() == 1 {
            assert(actions + d == one);
        } else {
            let two = one.push(d[1]);
            pushed(one, d[1], known);
            if d.len() == 2 {
                assert(actions + d == two);
            } else {
                pushed(two, d[2], known);
                assert(actions + d == two.push(d[2]));
            }
        }
    }
}

/// What is done about a message, written out.
pub proof fn actions_of_message(m: WindowModel, hwnd: Hwnd, message: Message, replies: Replies)
    ensures
        ({
            let d = handled(m, hwnd, message, replies).actions;
            match message {
                Message::MouseMove { position, keys } => {
                    let moved = Action::Deliver(
                        Event::Mouse(MouseEvent::CursorMoved { position, modifiers: keys }),
                    );
                    d == if m.mouse_was_outside_window {
                        seq![
                            Action::TrackMouseLeave(hwnd),
                            Action::Deliver(Event::Mouse(MouseEvent::CursorEntered)),
                            moved,
                        ]
                    } else {
                        seq![moved]
                    }
                },
                Message::MouseLeave => d == seq![
                    Action::Deliver(Event::Mouse(MouseEvent::CursorLeft)),
                ],
                Message::Button { button: Some(button), pressed, keys } => {
                    let event = if pressed {
                        MouseEvent::ButtonPressed { button, modifiers: keys }
                    } else {
                        MouseEvent::ButtonReleased { button, modifiers: keys }
                    };
                    let told = Action::Deliver(Event::Mouse(event));
                    d == if pressed {
                        seq![Action::SetCapture(hwnd), told]
                    } else if m.mouse_button_counter <= 1 {
                        seq![Action::ReleaseCapture, told]
                    } else {
                        seq![told]
                    }
                },
                Message::Size(physical) => {
                    let info = WindowInfo {
                        physical_size: physical,
                        logical_size: replies.logical,
                        scale: m.window_info.scale,
                    };
                    d == if m.window_info.physical_size == physical {
                        seq![]
                    } else {
                        seq![Action::Deliver(Event::Window(WindowEvent::Resized(info)))]
                    }
                },
                Message::DpiChanged { .. } | Message::DpiChangedAfterParent => {
                    let info = m.rescaled_info(replies.scale, replies.physical);
                    if !(m.scale_policy is SystemScaleFactor) {
                        d.len() == 0
                    } else if m.window_info.equals(info) {
                        d.len() == 1 && d[0] is SetClientSize
                    } else {
                        &&& d.len() == 2
                        &&& d[0] == Action::Deliver(Event::Window(WindowEvent::Resized(info)))
                        &&& d[1] is SetClientSize
                    }
                },
                _ => d.len() == 0 || (d.len() == 1 && is_neutral(d[0])),
            }
        }),
{
    reveal(handled);
    let d = handled(m, hwnd, message, replies).actions;
    match message {
        Message::MouseMove { position, keys } => {
            let moved = Action::Deliver(
                Event::Mouse(MouseEvent::CursorMoved { position, modifiers: keys }),
            );
            if m.mouse_was_outside_window {
                assert(d =~= seq![
                    Action::TrackMouseLeave(hwnd),
                    Action::Deliver(Event::Mouse(MouseEvent::CursorEntered)),
                    moved,
                ]);
            } else {
                assert(d =~= seq![moved]);
            }
        },
        Message::MouseLeave => {
            assert(d =~= seq![Action::Deliver(Event::Mouse(MouseEvent::CursorLeft))]);
        },
        Message::Button { button: Some(button), pressed, keys } => {
            if !pressed {
                let event = MouseEvent::ButtonReleased { button, modifiers: keys };
                let told = Action::Deliver(Event::Mouse(event));
                if m.button_up().mouse_button_counter == 0 {
                    assert(d =~= seq![Action::ReleaseCapture, told]);
                } else {
                    assert(d =~= seq![told]);
                }
            }
        },
        Message::Size(physical) => {
            let info = WindowInfo {
                physical_size: physical,
                logical_size: replies.logical,
                scale: m.window_info.scale,
            };
            if m.window_info.physical_size == physical {
                assert(d =~= seq![]);
            } else {
                assert(d =~= seq![Action::Deliver(Event::Window(WindowEvent::Resized(info)))]);
            }
        },
        _ => {},
    }
}

/// The action is about neither the pointer's whereabouts nor the capture nor the size.
pub open spec fn is_neutral(action: Action) -> bool {
    &&& forall|inside: bool| pointer_after(inside, action) == inside
    &&& forall|inside: bool| pointer_allows(inside, action)
    &&& forall|captured: bool| capture_after(captured, action) == captured
    &&& forall|known: WindowInfo| told_after(known, action) == known
}

proof fn pointer_step(actions: Seq<Action>, m: WindowModel, step: Step)
    requires
        pointer_in_order(actions),
        m.mouse_was_outside_window == !pointer_inside(actions),
    ensures
        pointer_in_order(actions + done(m, step)),
        after(m, step).mouse_was_outside_window == !pointer_inside(actions + done(m, step)),
{
    if let Step::Message { hwnd, message, replies } = step {
        actions_of_message(m, hwnd, message, replies);
        state_after_message(m, hwnd, message, replies);
    }
    appended(actions, done(m, step), m.window_info);
}

proof fn capture_step(actions: Seq<Action>, m: WindowModel, step: Step)
    requires
        mouse_captured(actions) == (m.mouse_button_counter > 0),
    ensures
        mouse_captured(actions + done(m, step)) == (after(m, step).mouse_button_counter > 0),
{
    if let Step::Message { hwnd, message, replies } = step {
        actions_of_message(m, hwnd, message, replies);
        state_after_message(m, hwnd, message, replies);
    }
    appended(actions, done(m, step), m.window_info);
}

proof fn told_step(start: WindowInfo, actions: Seq<Action>, m: WindowModel, step: Step)
    requires
        told(start, actions) == m.window_info || told(start, actions).equals(m.window_info),
    ensures
        ({
            let known = told(start, actions + done(m, step));
            let info = after(m, step).window_info;
            known == info || known.equals(info)
        }),
{
    let known = told(start, actions);
    let info = after(m, step).window_info;
    if let Step::Message { hwnd, message, replies } = step {
        actions_of_message(m, hwnd, message, replies);
        state_after_message(m, hwnd, message, replies);
    }
    appended(actions, done(m, step), start);
    if known.equals(m.window_info) && m.window_info.equals(info) {
        equal_infos_are_transitive(known, m.window_info, info);
    }
}

/// The handler hears of the pointer in order, whatever happens: it comes in only when it was
/// outside, it moves only while it is inside, and in between the window knows where it is.
pub proof fn pointer_is_reported_in_order(m: WindowModel, steps: Seq<Step>)
    requires
        m.mouse_was_outside_window,
    ensures
        pointer_in_order(trace(m, steps)),
        run(m, steps).mouse_was_outside_window == !pointer_inside(trace(m, steps)),
    decreases steps.len(),
{
    if steps.len() > 0 {
        let before = steps.drop_last();
        pointer_is_reported_in_order(m, before);
        pointer_step(trace(m, before), run(m, before), steps.last());
    }
}

/// The window has the mouse captured exactly while it counts a button as held.
pub proof fn mouse_is_captured_while_a_button_is_held(m: WindowModel, steps: Seq<Step>)
    requires
        m.mouse_button_counter == 0,
    ensures
        mouse_captured(trace(m, steps)) == (run(m, steps).mouse_button_counter > 0),
    decreases steps.len(),
{
    if steps.len() > 0 {
        let before = steps.drop_last();
        mouse_is_captured_while_a_button_is_held(m, before);
        capture_step(trace(m, before), run(m, before), steps.last());
    }
}

/// A button that is pressed and released leaves the count of held buttons as it was, up to the
/// largest count there is.
pub proof fn release_undoes_press(m: WindowModel, hwnd: Hwnd, button: MouseButton, keys: Keys)
    requires
        m.mouse_button_counter < usize::MAX,
    ensures
        m.on_button(hwnd, Some(button), true, keys).model.on_button(
            hwnd,
            Some(button),
            false,
            keys,
        ).model == m,
{
}

/// A handler that knows the window's size is kept up to date: what it was told last is the
/// window's info, or compares equal to it.
pub proof fn handler_knows_the_size(m: WindowModel, steps: Seq<Step>)
    ensures
        ({
            let known = told(m.window_info, trace(m, steps));
            let info = run(m, steps).window_info;
            known == info || known.equals(info)
        }),
    decreases steps.len(),
{
    if steps.len() > 0 {
        let before = steps.drop_last();
        handler_knows_the_size(m, before);
        told_step(m.window_info, trace(m, before), run(m, before), steps.last());
    }
}

/// A window that is told its size again has nothing to say, whatever the logical size would be.
pub proof fn repeated_size_is_no_news(
    m: WindowModel,
    hwnd: Hwnd,
    physical: PhySize,
    first: Replies,
    second: Replies,
)
    ensures
        ({
            let once = handled(m, hwnd, Message::Size(physical), first).model;
            &&& once.window_info.physical_size == physical
            &&& handled(once, hwnd, Message::Size(physical), second) == once.answering(seq![], None)
        }),
{
    reveal(handled);
    let once = handled(m, hwnd, Message::Size(physical), first).model;
    assert(handled(once, hwnd, Message::Size(physical), second) =~= once.answering(seq![], None));
}

/// The step reports a size.
pub open spec fn is_size_message(step: Step) -> bool {
    step matches Step::Message { message: Message::Size(_), .. }
}

/// Only a reported size changes the window's logical size. In particular, another DPI does not.
pub proof fn logical_size_changes_by_size_messages_only(m: WindowModel, steps: Seq<Step>)
    requires
        forall|i: int| 0 <= i < steps.len() ==> !is_size_message(#[trigger] steps[i]),
    ensures
        run(m, steps).window_info.logical_size == m.window_info.logical_size,
    decreases steps.len(),
{
    if steps.len() > 0 {
        let before = steps.drop_last();
        assert forall|i: int| 0 <= i < before.len() implies !is_size_message(
            #[trigger] before[i],
        ) by {
            assert(before[i] == steps[i]);
        }
        logical_size_changes_by_size_messages_only(m, before);
        assert(!is_size_message(steps[steps.len() - 1]));
        if let Step::Message { hwnd, message, replies } = steps.last() {
            state_after_message(run(m, before), hwnd, message, replies);
        }
    }
}

/// A window with a scale of its own keeps it.
pub proof fn fixed_scale_never_changes(m: WindowModel, steps: Seq<Step>)
    requires
        !(m.scale_policy is SystemScaleFactor),
    ensures
        run(m, steps).window_info.scale == m.window_info.scale,
    decreases steps.len(),
{
    if steps.len() > 0 {
        let before = steps.drop_last();
        fixed_scale_never_changes(m, before);
        settings_never_change(m, before);
        if let Step::Message { hwnd, message, replies } = steps.last() {
            state_after_message(run(m, before), hwnd, message, replies);
        }
    }
}

/// A cursor that the handler chose is the one that the window shows whenever the pointer is over
/// its client area, until the handler chooses another.
pub proof fn chosen_cursor_is_shown(
    m: WindowModel,
    cursor: MouseCursor,
    steps: Seq<Step>,
    hwnd: Hwnd,
    replies: Replies,
)
    requires
        forall|i: int| 0 <= i < steps.len() ==> !(#[trigger] steps[i] is SetCursor),
    ensures
        ({
            let later = run(after(m, Step::SetCursor(cursor)), steps);
            handled(later, hwnd, Message::SetCursor { in_client_area: true }, replies)
                == later.answering(seq![Action::SetCursor(cursor)], Some(1))
        }),
    decreases steps.len(),
{
    let start = after(m, Step::SetCursor(cursor));
    cursor_is_kept(start, steps);
    reveal(handled);
}

proof fn cursor_is_kept(m: WindowModel, steps: Seq<Step>)
    requires
        forall|i: int| 0 <= i < steps.len() ==> !(#[trigger] steps[i] is SetCursor),
    ensures
        run(m, steps).cursor_icon == m.cursor_icon,
    decreases steps.len(),
{
    if steps.len() > 0 {
        let before = steps.drop_last();
        assert forall|i: int| 0 <= i < before.len() implies !(#[trigger] before[i] is SetCursor) by {
            assert(before[i] == steps[i]);
        }
        cursor_is_kept(m, before);
        assert(!(steps[steps.len() - 1] is SetCursor));
        message_step(run(m, before), steps.last());
    }
}

/// The tasks that the handler asked for, in the order in which it did.
pub open spec fn requested(steps: Seq<Step>) -> Seq<WindowTask>
    decreases steps.len(),
{
    if steps.len() == 0 {
        seq![]
    } else {
        match steps.last() {
            Step::Resize(size) => requested(steps.drop_last()).push(WindowTask::Resize(size)),
            _ => requested(steps.drop_last()),
        }
    }
}

/// The tasks that were taken up, in the order in which they were.
pub open spec fn taken(m: WindowModel, steps: Seq<Step>) -> Seq<WindowTask>
    decreases steps.len(),
{
    if steps.len() == 0 {
        seq![]
    } else {
        let tasks = run(m, steps.drop_last()).deferred_tasks;
        if steps.last() is TakeTask && tasks.len() > 0 {
            taken(m, steps.drop_last()).push(tasks.first())
        } else {
            taken(m, steps.drop_last())
        }
    }
}

/// Tasks are taken up in the order in which they were asked for. None is lost and none is done
/// twice.
pub proof fn tasks_keep_their_order(m: WindowModel, steps: Seq<Step>)
    ensures
        taken(m, steps) + run(m, steps).deferred_tasks == m.deferred_tasks + requested(steps),
    decreases steps.len(),
{
    if steps.len() > 0 {
        let before = steps.drop_last();
        tasks_keep_their_order(m, before);
        message_step(run(m, before), steps.last());
        let tasks = run(m, before).deferred_tasks;
        let all = taken(m, before) + tasks;
        match steps.last() {
            Step::Resize(size) => {
                let task = WindowTask::Resize(size);
                assert(taken(m, steps) + run(m, steps).deferred_tasks == all.push(task));
                assert(m.deferred_tasks + requested(steps) == (m.deferred_tasks + requested(
                    before,
                )).push(task));
            },
            Step::TakeTask => {
                if tasks.len() > 0 {
                    assert(taken(m, before).push(tasks.first()) + tasks.drop_first() == all);
                }
            },
            _ => {},
        }
    }
}

/// The state after a call of the window procedure has settled `n` times.
pub open spec fn settled_times(m: WindowModel, n: nat) -> WindowModel
    decreases n,
{
    if n == 0 {
        m
    } else {
        settled_times(m, (n - 1) as nat).settled()
    }
}

proof fn settling_drops_tasks(m: WindowModel, n: nat)
    requires
        n <= m.deferred_tasks.len(),
    ensures
        settled_times(m, n) == (WindowModel {
            deferred_tasks: m.deferred_tasks.skip(n as int),
            ..m
        }),
    decreases n,
{
    if n == 0 {
        assert(m.deferred_tasks.skip(0) == m.deferred_tasks);
    } else {
        settling_drops_tasks(m, (n - 1) as nat);
        assert(m.deferred_tasks.skip(n - 1).drop_first() == m.deferred_tasks.skip(n as int));
    }
}

/// A call of the window procedure handles every task that is waiting, in order, whatever answer
/// the message got. Then it exits with that answer, and if the window is destroyed it is taken
/// down then and not before.
pub proof fn call_exits_after_its_tasks(
    m: WindowModel,
    hwnd: Hwnd,
    msg: u32,
    answer: Option<isize>,
)
    ensures
        forall|i: nat|
            i < m.deferred_tasks.len() ==> #[trigger] settled_times(m, i).settling(hwnd, msg, answer)
                == Settling::Task(m.deferred_tasks[i as int]),
        settled_times(m, m.deferred_tasks.len()).settling(hwnd, msg, answer) == (Settling::Exit {
            teardown: if msg == WM_NCDESTROY {
                seq![
                    Action::RevokeDragDrop(hwnd),
                    Action::UnregisterClass(m.window_class),
                    Action::DetachState(hwnd),
                    Action::ReleaseState,
                ]
            } else {
                seq![]
            },
            answer,
        }),
{
    assert forall|i: nat| i < m.deferred_tasks.len() implies #[trigger] settled_times(
        m,
        i,
    ).settling(hwnd, msg, answer) == Settling::Task(m.deferred_tasks[i as int]) by {
        settling_drops_tasks(m, i);
    }
    settling_drops_tasks(m, m.deferred_tasks.len());
}

/// The handler is told of a size only if it is news, and then it is the window's size.
pub proof fn resize_is_told_only_of_a_change(m: WindowModel, step: Step, i: int, info: WindowInfo)
    requires
        0 <= i < done(m, step).len(),
        done(m, step)[i] == Action::Deliver(Event::Window(WindowEvent::Resized(info))),
    ensures
        !m.window_info.equals(info),
        after(m, step).window_info == info,
{
    if let Step::Message { hwnd, message, replies } = step {
        actions_of_message(m, hwnd, message, replies);
        state_after_message(m, hwnd, message, replies);
        if done(m, step).len() == 1 && is_neutral(done(m, step)[0]) {
            let other = WindowInfo {
                physical_size: PhySize {
                    width: if info.physical_size.width == 0 { 1 } else { 0 },
                    height: 0,
                },
                ..info
            };
            assert(told_after(other, done(m, step)[0]) == other);
        }
    }
}

/// When a window is gone its opener's handle is not open, whatever happened before, if it was open
/// at first only because the window held its parent handle.
pub proof fn handle_of_a_released_window_is_not_open(m: WindowModel, open: bool, steps: Seq<Step>)
    requires
        open ==> m.parent_handle is Some,
    ensures
        !open_after_release(open, run(m, steps).parent_handle),
{
    settings_never_change(m, steps);
}

} // verus!
