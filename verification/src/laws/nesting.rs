//! What holds when a message destroys the window that handles it.

use vstd::prelude::*;

use crate::action::Next;
use crate::laws::run::{after, handled, Replies, Step};
use crate::message::Message;
use crate::model::{place_settled, place_settling, Settling, WindowModel};
use crate::win32::Hwnd;

verus! {

/// Something that happens at the place of a window's state.
pub ghost enum PlaceStep {
    /// Something happens to the state, if it is there.
    Inside(Step),
    /// A call of the window procedure goes on once its message has an answer.
    Settle { hwnd: Hwnd, msg: u32, answer: Option<isize> },
    /// The state is released, if it is there.
    Release,
}

/// What is there after a step.
pub open spec fn place_after(place: Option<WindowModel>, step: PlaceStep) -> Option<WindowModel> {
    match step {
        PlaceStep::Inside(step) => match place {
            Some(m) => Some(after(m, step)),
            None => None,
        },
        PlaceStep::Settle { .. } => place_settled(place),
        PlaceStep::Release => None,
    }
}

/// What is there after a course of steps.
pub open spec fn place_run(place: Option<WindowModel>, steps: Seq<PlaceStep>) -> Option<WindowModel>
    decreases steps.len(),
{
    if steps.len() == 0 {
        place
    } else {
        place_after(place_run(place, steps.drop_last()), steps.last())
    }
}

/// How often a state is released over a course of steps.
pub open spec fn release_count(place: Option<WindowModel>, steps: Seq<PlaceStep>) -> nat
    decreases steps.len(),
{
    if steps.len() == 0 {
        0
    } else {
        release_count(place, steps.drop_last()) + if steps.last() is Release && place_run(
            place,
            steps.drop_last(),
        ) is Some {
            1nat
        } else {
            0nat
        }
    }
}

/// A state is released exactly once, by the first step that releases it. From then on it is not
/// there, whatever else happens.
pub proof fn state_is_released_once(m: WindowModel, steps: Seq<PlaceStep>)
    ensures
        release_count(Some(m), steps) == if exists|i: int|
            0 <= i < steps.len() && #[trigger] steps[i] is Release {
            1nat
        } else {
            0nat
        },
        place_run(Some(m), steps) is None <==> exists|i: int|
            0 <= i < steps.len() && #[trigger] steps[i] is Release,
    decreases steps.len(),
{
    if steps.len() > 0 {
        let before = steps.drop_last();
        state_is_released_once(m, before);
        assert(forall|i: int| 0 <= i < before.len() ==> before[i] == steps[i]);
        if exists|i: int| 0 <= i < before.len() && #[trigger] before[i] is Release {
            let i = choose|i: int| 0 <= i < before.len() && #[trigger] before[i] is Release;
            assert(steps[i] is Release);
        }
        if exists|i: int| 0 <= i < steps.len() && #[trigger] steps[i] is Release {
            let i = choose|i: int| 0 <= i < steps.len() && #[trigger] steps[i] is Release;
            if i < before.len() {
                assert(before[i] is Release);
            }
        }
        assert(steps[steps.len() - 1] == steps.last());
    }
}

/// Once a state is released, every call that is still under way exits at once: without a task,
/// without a teardown, with the answer that its message got.
pub proof fn calls_exit_once_the_state_is_released(
    m: WindowModel,
    steps: Seq<PlaceStep>,
    hwnd: Hwnd,
    msg: u32,
    answer: Option<isize>,
)
    requires
        exists|i: int| 0 <= i < steps.len() && #[trigger] steps[i] is Release,
    ensures
        place_settling(place_run(Some(m), steps), hwnd, msg, answer) == (Settling::Exit {
            teardown: seq![],
            answer,
        }),
        place_settled(place_run(Some(m), steps)) is None,
{
    state_is_released_once(m, steps);
}

/// A call that destroys its own window, by the message to close or by the default procedure for
/// one, has no more use for the state after it hands out that action: no method of the state goes
/// on with the message. The nested calls in between release the state exactly once, and the call
/// then returns the answer that the message got.
pub proof fn destroying_call_leaves_the_state_alone(
    m: WindowModel,
    hwnd: Hwnd,
    message: Message,
    msg: u32,
    replies: Replies,
    nested: Seq<PlaceStep>,
)
    requires
        message is Close || message is MustClose,
        exists|i: int| 0 <= i < nested.len() && #[trigger] nested[i] is Release,
    ensures
        m.reaction(hwnd, message).model == m,
        message is MustClose ==> m.reaction(hwnd, message).next == Next::Answer(Some(0)),
        message is Close ==> m.reaction(hwnd, message).next == Next::CallDefault,
        ({
            let answer = if message is Close {
                Some(replies.default_value)
            } else {
                Some(0)
            };
            &&& handled(m, hwnd, message, replies).next == Next::Answer(answer)
            &&& release_count(Some(m), nested) == 1
            &&& place_run(Some(m), nested) is None
            &&& place_settling(place_run(Some(m), nested), hwnd, msg, answer) == (Settling::Exit {
                teardown: seq![],
                answer,
            })
        }),
{
    reveal(handled);
    state_is_released_once(m, nested);
}

} // verus!
