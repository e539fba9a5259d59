//! What holds of a window's size when its DPI changes.

use vstd::prelude::*;

use crate::action::Action;
use crate::dpi::effective_dpi;
use crate::event::{Event, WindowEvent};
use crate::geometry::{PhySize, Real, Size, WindowInfo};
use crate::laws::run::{
    actions_of_message, after, done, is_neutral, run, settings_never_change, state_after_message, told_after, trace, Step,
};
use crate::message::Message;
use crate::model::WindowModel;

verus! {

/// The new DPI of the window, if the step brings one.
pub open spec fn new_dpi(step: Step) -> Option<u32> {
    match step {
        Step::Message { message: Message::DpiChanged { dpi }, .. } => Some(dpi),
        Step::Message { message: Message::DpiChangedAfterParent, replies, .. } => Some(
            effective_dpi(replies.reported),
        ),
        _ => None,
    }
}

/// How sizes are converted at a DPI: the scale that it stands for, and what a logical size is at
/// that scale in whole pixels.
pub ghost struct Conversion {
    pub scale: spec_fn(u32) -> Real,
    pub physical: spec_fn(Size, u32) -> PhySize,
}

impl Conversion {
    /// The info of a window of the given size at a DPI.
    pub open spec fn info(self, logical: Size, dpi: u32) -> WindowInfo {
        WindowInfo {
            physical_size: (self.physical)(logical, dpi),
            logical_size: logical,
            scale: (self.scale)(dpi),
        }
    }

    /// The step brings the DPI, and the answers on the way are those of the conversion.
    pub open spec fn changes_to(self, step: Step, logical: Size, dpi: u32) -> bool {
        &&& new_dpi(step) == Some(dpi)
        &&& step matches Step::Message { replies, .. } && replies.scale == (self.scale)(dpi)
            && replies.physical == (self.physical)(logical, dpi)
    }
}

/// The step brings no DPI, and a size only if it is the one that was asked for.
pub open spec fn is_quiet(step: Step, asked: PhySize) -> bool {
    &&& new_dpi(step) is None
    &&& step matches Step::Message { message: Message::Size(physical), .. } ==> physical == asked
}

pub open spec fn all_quiet(steps: Seq<Step>, asked: PhySize) -> bool {
    forall|i: int| 0 <= i < steps.len() ==> is_quiet(#[trigger] steps[i], asked)
}

/// The action tells the handler of a size.
pub open spec fn tells_size(action: Action) -> bool {
    action matches Action::Deliver(Event::Window(WindowEvent::Resized(_)))
}

/// How often the handler is told of a size.
pub open spec fn sizes_told(actions: Seq<Action>) -> nat
    decreases actions.len(),
{
    if actions.len() == 0 {
        0
    } else {
        sizes_told(actions.drop_last()) + if tells_size(actions.last()) {
            1nat
        } else {
            0nat
        }
    }
}

proof fn sizes_told_adds_up(first: Seq<Action>, second: Seq<Action>)
    ensures
        sizes_told(first + second) == sizes_told(first) + sizes_told(second),
    decreases second.len(),
{
    if second.len() == 0 {
        assert(first + second == first);
    } else {
        assert((first + second).drop_last() == first + second.drop_last());
        sizes_told_adds_up(first, second.drop_last());
    }
}

proof fn nothing_told(actions: Seq<Action>)
    requires
        forall|i: int| 0 <= i < actions.len() ==> !tells_size(#[trigger] actions[i]),
    ensures
        sizes_told(actions) == 0,
    decreases actions.len(),
{
    if actions.len() > 0 {
        let before = actions.drop_last();
        assert forall|i: int| 0 <= i < before.len() implies !tells_size(#[trigger] before[i]) by {
            assert(before[i] == actions[i]);
        }
        nothing_told(before);
        assert(!tells_size(actions[actions.len() - 1]));
    }
}

proof fn neutral_tells_no_size(action: Action)
    requires
        is_neutral(action),
    ensures
        !tells_size(action),
{
    if let Action::Deliver(Event::Window(WindowEvent::Resized(info))) = action {
        let other = WindowInfo {
            physical_size: PhySize {
                width: if info.physical_size.width == 0 { 1 } else { 0 },
                height: 0,
            },
            ..info
        };
        assert(told_after(other, action) == other);
    }
}

proof fn quiet_step(m: WindowModel, step: Step)
    requires
        is_quiet(step, m.window_info.physical_size),
    ensures
        after(m, step).window_info == m.window_info,
        sizes_told(done(m, step)) == 0,
{
    let d = done(m, step);
    if let Step::Message { hwnd, message, replies } = step {
        state_after_message(m, hwnd, message, replies);
        actions_of_message(m, hwnd, message, replies);
        if d.len() == 1 && is_neutral(d[0]) {
            neutral_tells_no_size(d[0]);
        }
    }
    nothing_told(d);
}

/// As long as no DPI comes, and no size but the one that was asked for, the window's info stays as
/// it is and the handler is told of no size.
pub proof fn repeated_sizes_change_nothing(m: WindowModel, steps: Seq<Step>)
    requires
        all_quiet(steps, m.window_info.physical_size),
    ensures
        run(m, steps).window_info == m.window_info,
        sizes_told(trace(m, steps)) == 0,
    decreases steps.len(),
{
    if steps.len() > 0 {
        let before = steps.drop_last();
        assert forall|i: int| 0 <= i < before.len() implies is_quiet(
            #[trigger] before[i],
            m.window_info.physical_size,
        ) by {
            assert(before[i] == steps[i]);
        }
        repeated_sizes_change_nothing(m, before);
        assert(is_quiet(steps[steps.len() - 1], m.window_info.physical_size));
        quiet_step(run(m, before), steps.last());
        sizes_told_adds_up(trace(m, before), done(run(m, before), steps.last()));
    }
}

/// A course of steps, and then another.
proof fn courses_follow_each_other(m: WindowModel, first: Seq<Step>, second: Seq<Step>)
    ensures
        run(m, first + second) == run(run(m, first), second),
        trace(m, first + second) == trace(m, first) + trace(run(m, first), second),
    decreases second.len(),
{
    if second.len() == 0 {
        assert(first + second == first);
        assert(trace(m, first) + trace(run(m, first), second) == trace(m, first));
    } else {
        let before = second.drop_last();
        assert((first + second).drop_last() == first + before);
        courses_follow_each_other(m, first, before);
        let last = done(run(run(m, first), before), second.last());
        assert(trace(m, first) + (trace(run(m, first), before) + last) == (trace(m, first) + trace(
            run(m, first),
            before,
        )) + last);
    }
}

proof fn single_step(m: WindowModel, step: Step)
    ensures
        run(m, seq![step]) == after(m, step),
        trace(m, seq![step]) == done(m, step),
{
    let none = seq![step].drop_last();
    assert(run(m, none) == m);
    assert(trace(m, none) == Seq::<Action>::empty());
    assert(trace(m, none) + done(m, step) == done(m, step));
}

proof fn dpi_step(
    m: WindowModel,
    step: Step,
    conversion: Conversion,
    logical: Size,
    from: u32,
    to: u32,
)
    requires
        m.scale_policy is SystemScaleFactor,
        m.window_info == conversion.info(logical, from),
        conversion.changes_to(step, logical, to),
        (conversion.scale)(from).equals((conversion.scale)(to)) ==> from == to,
    ensures
        after(m, step).window_info == conversion.info(logical, to),
        after(m, step).scale_policy == m.scale_policy,
        from != to ==> sizes_told(done(m, step)) == 1,
{
    if let Step::Message { hwnd, message, replies } = step {
        state_after_message(m, hwnd, message, replies);
        actions_of_message(m, hwnd, message, replies);
        let d = done(m, step);
        if from != to {
            assert(!m.window_info.equals(conversion.info(logical, to)));
            assert(d.drop_last().len() == 1);
            assert(d.drop_last()[0] == d[0]);
            assert(sizes_told(d.drop_last().drop_last()) == 0);
            assert(sizes_told(d.drop_last()) == 1);
        }
    }
}

/// A change of DPI and back restores the window's info to the bit: nothing drifts through the
/// rounding of sizes, if the sizes reported in between and afterwards are those asked for. If the
/// DPI differ, the handler is told of a size twice, once for each change and not for the sizes
/// that are reported. The scale is taken to tell different DPI apart.
pub proof fn dpi_change_and_back_restores_the_info(
    m: WindowModel,
    conversion: Conversion,
    home: u32,
    away: u32,
    there: Step,
    between: Seq<Step>,
    back: Step,
    afterwards: Seq<Step>,
)
    requires
        m.scale_policy is SystemScaleFactor,
        m.window_info == conversion.info(m.window_info.logical_size, home),
        (conversion.scale)(home).equals((conversion.scale)(away)) ==> home == away,
        conversion.changes_to(there, m.window_info.logical_size, away),
        all_quiet(between, (conversion.physical)(m.window_info.logical_size, away)),
        conversion.changes_to(back, m.window_info.logical_size, home),
        all_quiet(afterwards, (conversion.physical)(m.window_info.logical_size, home)),
    ensures
        ({
            let steps = seq![there] + between + seq![back] + afterwards;
            &&& run(m, steps).window_info == m.window_info
            &&& home != away ==> sizes_told(trace(m, steps)) == 2
        }),
{
    let logical = m.window_info.logical_size;
    let s1 = seq![there];
    let s2 = s1 + between;
    let s3 = s2 + seq![back];
    let s4 = s3 + afterwards;

    let m1 = run(m, s1);
    single_step(m, there);
    dpi_step(m, there, conversion, logical, home, away);

    courses_follow_each_other(m, s1, between);
    let m2 = run(m, s2);
    repeated_sizes_change_nothing(m1, between);
    settings_never_change(m1, between);
    sizes_told_adds_up(trace(m, s1), trace(m1, between));

    courses_follow_each_other(m, s2, seq![back]);
    let m3 = run(m, s3);
    single_step(m2, back);
    dpi_step(m2, back, conversion, logical, away, home);
    sizes_told_adds_up(trace(m, s2), done(m2, back));

    courses_follow_each_other(m, s3, afterwards);
    repeated_sizes_change_nothing(m3, afterwards);
    sizes_told_adds_up(trace(m, s3), trace(m3, afterwards));
}

} // verus!
