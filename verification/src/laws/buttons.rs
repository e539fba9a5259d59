//! What holds of the count of held mouse buttons.

use vstd::prelude::*;

use crate::action::Action;
use crate::laws::input::{button_by_number, buttons_are_read_by_number};
use crate::laws::run::{
    actions_of_message, done, mouse_captured, mouse_is_captured_while_a_button_is_held, run,
    state_after_message, trace, Replies, Step,
};
use crate::message::{decoded, Message};
use crate::model::WindowModel;
use crate::win32::Hwnd;

verus! {

/// The step is a press, or a release, of a button that has a name.
pub open spec fn is_button(step: Step, down: bool) -> bool {
    step matches Step::Message { message: Message::Button { button: Some(_), pressed, .. }, .. }
        && pressed == down
}

/// How many presses, or releases, there are in a course of steps.
pub open spec fn count(steps: Seq<Step>, down: bool) -> nat
    decreases steps.len(),
{
    if steps.len() == 0 {
        0
    } else {
        count(steps.drop_last(), down) + if is_button(steps.last(), down) {
            1nat
        } else {
            0nat
        }
    }
}

/// At no time are there more releases than presses, or more buttons held than can be counted.
pub open spec fn balanced(steps: Seq<Step>) -> bool
    decreases steps.len(),
{
    steps.len() == 0 || {
        &&& balanced(steps.drop_last())
        &&& count(steps, false) <= count(steps, true) <= count(steps, false) + usize::MAX
    }
}

/// The buttons that count as held are the presses without their releases. A release frees the
/// mouse exactly if it evens them out, and the mouse is captured exactly while they are uneven.
pub proof fn held_buttons_are_presses_less_releases(m: WindowModel, steps: Seq<Step>)
    requires
        m.mouse_button_counter == 0,
        balanced(steps),
    ensures
        run(m, steps).mouse_button_counter == count(steps, true) - count(steps, false),
        mouse_captured(trace(m, steps)) == (count(steps, true) != count(steps, false)),
        steps.len() > 0 && is_button(steps.last(), false) ==> (done(
            run(m, steps.drop_last()),
            steps.last(),
        ).contains(Action::ReleaseCapture) <==> count(steps, true) == count(steps, false)),
    decreases steps.len(),
{
    if steps.len() > 0 {
        let before = steps.drop_last();
        held_buttons_are_presses_less_releases(m, before);
        if let Step::Message { hwnd, message, replies } = steps.last() {
            state_after_message(run(m, before), hwnd, message, replies);
            actions_of_message(run(m, before), hwnd, message, replies);
            if is_button(steps.last(), false) {
                let d = done(run(m, before), steps.last());
                if count(steps, true) == count(steps, false) {
                    assert(d[0] == Action::ReleaseCapture);
                }
            }
        }
    }
    mouse_is_captured_while_a_button_is_held(m, steps);
}

/// A message as the system sends it, and what is answered on the way.
pub ghost struct Sent {
    pub hwnd: Hwnd,
    pub msg: u32,
    pub wparam: usize,
    pub lparam: isize,
    pub replies: Replies,
}

impl Sent {
    /// What happens to the window.
    pub open spec fn step(self) -> Step {
        Step::Message {
            hwnd: self.hwnd,
            message: decoded(self.msg, self.wparam, self.lparam),
            replies: self.replies,
        }
    }

    /// It is about a named button that goes down, or up.
    pub open spec fn moves_button(self, down: bool) -> bool {
        button_by_number(self.msg, ((self.wparam as u32) / 0x1_0000) as u16) matches Some((_, d))
            && d == down
    }
}

pub open spec fn steps_of(sent: Seq<Sent>) -> Seq<Step> {
    Seq::new(sent.len(), |i: int| sent[i].step())
}

/// How many messages there are of a named button going down, or up.
pub open spec fn moves(sent: Seq<Sent>, down: bool) -> nat
    decreases sent.len(),
{
    if sent.len() == 0 {
        0
    } else {
        moves(sent.drop_last(), down) + if sent.last().moves_button(down) {
            1nat
        } else {
            0nat
        }
    }
}

/// At no time have more buttons gone up than down, or are more held than can be counted.
pub open spec fn even_moves(sent: Seq<Sent>) -> bool
    decreases sent.len(),
{
    sent.len() == 0 || {
        &&& even_moves(sent.drop_last())
        &&& moves(sent, false) <= moves(sent, true) <= moves(sent, false) + usize::MAX
    }
}

proof fn moves_are_button_steps(sent: Seq<Sent>)
    ensures
        count(steps_of(sent), true) == moves(sent, true),
        count(steps_of(sent), false) == moves(sent, false),
        balanced(steps_of(sent)) == even_moves(sent),
        sent.len() > 0 ==> is_button(steps_of(sent).last(), false) == sent.last().moves_button(
            false,
        ),
    decreases sent.len(),
{
    if sent.len() > 0 {
        moves_are_button_steps(sent.drop_last());
        assert(steps_of(sent).drop_last() == steps_of(sent.drop_last()));
        let last = sent.last();
        buttons_are_read_by_number(
            last.msg,
            last.wparam,
            last.lparam,
            ((last.wparam as u32) % 0x1_0000) as u16,
            ((last.wparam as u32) / 0x1_0000) as u16,
        );
    }
}

/// Over the messages as the system sends them: the buttons that count as held are those that went
/// down less those that went up, and the mouse is captured exactly while they are uneven. The
/// message of a button going up frees the mouse exactly if it evens them out.
pub proof fn mouse_is_captured_between_down_and_up(m: WindowModel, sent: Seq<Sent>)
    requires
        m.mouse_button_counter == 0,
        even_moves(sent),
    ensures
        run(m, steps_of(sent)).mouse_button_counter == moves(sent, true) - moves(sent, false),
        mouse_captured(trace(m, steps_of(sent))) == (moves(sent, true) != moves(sent, false)),
        sent.len() > 0 && sent.last().moves_button(false) ==> (done(
            run(m, steps_of(sent.drop_last())),
            sent.last().step(),
        ).contains(Action::ReleaseCapture) <==> moves(sent, true) == moves(sent, false)),
{
    moves_are_button_steps(sent);
    held_buttons_are_presses_less_releases(m, steps_of(sent));
    if sent.len() > 0 {
        assert(steps_of(sent).drop_last() == steps_of(sent.drop_last()));
    }
}

} // verus!
