//! What holds of a window that was just opened.

use vstd::prelude::*;

use crate::action::Action;
use crate::dpi::{effective_dpi, initial_dpi_query, DpiQuery};
use crate::event::MouseCursor;
use crate::geometry::{WindowInfo, WindowScalePolicy};
use crate::handle::open_after_release;
use crate::laws::encoding::{code_points, codes, wide_text_is_the_text_and_a_zero};
use crate::laws::run::{run, settings_never_change, Step};
use crate::model::WindowModel;
use crate::open::{
    reported_dpi, window_style, Measured, Plan, Ready, Rescaled, Scaling, Sizing, WindowOpenOptions,
};
use crate::state::GlContext;
use crate::win32::{Hwnd, WS_CHILD, WS_POPUP, WS_VISIBLE};

verus! {

/// Every window is visible. It is a child exactly if it has a parent, and otherwise a popup.
pub proof fn style_follows_parentage(parented: bool)
    ensures
        window_style(parented) & WS_VISIBLE != 0,
        (window_style(parented) & WS_CHILD != 0) == parented,
        (window_style(parented) & WS_POPUP != 0) == !parented,
{
    assert((0x4000_0000u32 | 0x1000_0000u32) & 0x1000_0000u32 != 0 && (0x4000_0000u32
        | 0x1000_0000u32) & 0x4000_0000u32 != 0 && (0x4000_0000u32 | 0x1000_0000u32)
        & 0x8000_0000u32 == 0) by (bit_vector);
    assert({
        let style = 0x8000_0000u32 | 0x0080_0000u32 | 0x0008_0000u32 | 0x00C0_0000u32
            | 0x1000_0000u32 | 0x0004_0000u32 | 0x0002_0000u32 | 0x0001_0000u32 | 0x0400_0000u32;
        style & 0x1000_0000u32 != 0 && style & 0x4000_0000u32 == 0 && style & 0x8000_0000u32 != 0
    }) by (bit_vector);
}

/// The handle of a new window is open exactly if the window holds the other end of it, which is
/// if it has a parent. Nothing that happens to the window makes it let go of that end.
pub proof fn child_window_holds_its_handle(
    measured: Measured,
    hwnd: Hwnd,
    window_class: u16,
    gl_context: Option<GlContext>,
    steps: Seq<Step>,
)
    ensures
        ({
            let m = measured.new_model(hwnd, window_class, gl_context);
            &&& m.parented == measured.plan().parented
            &&& run(m, steps).parent_handle is Some <==> measured.plan().parented
        }),
{
    settings_never_change(measured.new_model(hwnd, window_class, gl_context), steps);
}

/// A window opens with the logical size that was asked for, also where its actual DPI is another
/// than the one it started with. A scale that was fixed is kept.
pub proof fn window_opens_with_the_wished_size(
    measured: Measured,
    hwnd: Hwnd,
    window_class: u16,
    gl_context: Option<GlContext>,
    ready: Ready,
    rescaled: Option<Rescaled>,
)
    requires
        measured.wf(),
        ready.model().window_info == measured.new_model(
            hwnd,
            window_class,
            gl_context,
        ).window_info,
        ready.model().scale_policy == measured.plan().scale_policy,
        rescaled is Some <==> ready.model().scale_policy is SystemScaleFactor,
    ensures
        ready.rescaled_model(rescaled).window_info.logical_size == measured.plan().size,
        measured.plan().scale_policy matches WindowScalePolicy::ScaleFactor(fixed)
            ==> ready.rescaled_model(rescaled).window_info.scale == fixed,
{
}

/// A window is opened as its options ask, whether it has a parent or not: its title is that of the
/// options, character by character, and then a single zero, and its size, scale and OpenGL context
/// are those that were asked for.
pub proof fn options_are_kept(parented: bool, parent: Hwnd, options: WindowOpenOptions)
    ensures
        ({
            let plan = Plan::of(parented, parent, options);
            &&& plan.parented == parented
            &&& plan.parent == parent
            &&& plan.title.len() > 0
            &&& plan.title.last() == 0
            &&& code_points(plan.title.drop_last()) == codes(options.title@)
            &&& plan.size == options.size
            &&& plan.scale_policy == options.scale
            &&& plan.gl == options.gl
        }),
{
    wide_text_is_the_text_and_a_zero(options.title@);
}

/// The title does not depend on anything but the title that was asked for.
pub proof fn title_is_the_same_for_every_window(
    parented: bool,
    parent: Hwnd,
    options: WindowOpenOptions,
    other_parented: bool,
    other_parent: Hwnd,
    other: WindowOpenOptions,
)
    requires
        options.title@ == other.title@,
    ensures
        Plan::of(parented, parent, options).title == Plan::of(
            other_parented,
            other_parent,
            other,
        ).title,
{
}

/// A window that follows the system starts with the DPI of its parent, or of the system where it
/// has none. One with a scale of its own asks for no DPI.
pub proof fn first_dpi_is_that_of_the_parent(plan: Plan)
    ensures
        !(plan.scale_policy is SystemScaleFactor) ==> plan.dpi_query() is None,
        plan.scale_policy is SystemScaleFactor && plan.parented && plan.parent.address != 0
            ==> plan.dpi_query() == Some(DpiQuery::Window(plan.parent)),
        plan.scale_policy is SystemScaleFactor && !(plan.parented && plan.parent.address != 0)
            ==> plan.dpi_query() == Some(DpiQuery::System),
{
}

/// Whose DPI is asked for depends on the parent only where there is one.
pub proof fn parent_is_asked_where_there_is_one(parented: bool, parent: Hwnd)
    ensures
        initial_dpi_query(parented, parent) == DpiQuery::Window(parent) <==> parented
            && parent.address != 0,
        initial_dpi_query(parented, parent) == DpiQuery::System <==> !parented || parent.address
            == 0,
{
}

/// A DPI that was reported is the one to go by. Zero stands for a failure, and then it is 96.
pub proof fn reported_dpi_is_gone_by(reported: u32)
    ensures
        effective_dpi(reported) > 0,
        reported > 0 ==> effective_dpi(reported) == reported,
        effective_dpi(0) == 96,
        reported_dpi(Some(reported)) == Some(effective_dpi(reported)),
        reported_dpi(None) is None,
{
}

/// The scale is the one that was fixed, or else it comes from the DPI that was reported.
pub proof fn scale_comes_from_the_policy(sizing: Sizing)
    requires
        sizing.wf(),
    ensures
        sizing.plan().scale_policy matches WindowScalePolicy::ScaleFactor(fixed)
            ==> sizing.spec_scaling() == Scaling::Factor(fixed),
        sizing.plan().scale_policy is SystemScaleFactor ==> {
            &&& sizing.spec_scaling() matches Scaling::Dpi(dpi)
            &&& sizing.initial_dpi() == Some(dpi)
        },
{
}

/// A child is nothing but a visible child. Any other window is a visible popup with a border, a
/// caption, a menu, boxes to minimise and maximise it and a frame to size it by, and is clipped
/// against its siblings.
pub proof fn styles_are_written_out()
    ensures
        window_style(true) == 0x5000_0000,
        window_style(false) == 0x94CF_0000,
{
    assert(0x4000_0000u32 | 0x1000_0000u32 == 0x5000_0000u32) by (bit_vector);
    assert(0x8000_0000u32 | 0x0080_0000u32 | 0x0008_0000u32 | 0x00C0_0000u32 | 0x1000_0000u32
        | 0x0004_0000u32 | 0x0002_0000u32 | 0x0001_0000u32 | 0x0400_0000u32 == 0x94CF_0000u32)
        by (bit_vector);
}

/// A window that was just created has the handle, class and context that it was created with, and
/// its parentage, scale policy and info as they were settled. No button is held, the pointer is
/// outside, the cursor is the default one and no task waits. It holds the other end of its handle
/// exactly if it has a parent.
pub proof fn new_window_is_as_it_was_created(
    measured: Measured,
    hwnd: Hwnd,
    window_class: u16,
    gl_context: Option<GlContext>,
)
    ensures
        ({
            let m = measured.new_model(hwnd, window_class, gl_context);
            &&& m.hwnd == hwnd
            &&& m.window_class == window_class
            &&& m.window_info == measured.info()
            &&& m.parented == measured.plan().parented
            &&& m.parented ==> m.parent_handle == Some(hwnd) && m.dw_style == 0x5000_0000
            &&& !m.parented ==> m.parent_handle is None && m.dw_style == 0x94CF_0000
            &&& m.scale_policy == measured.plan().scale_policy
            &&& m.gl_context == gl_context
            &&& m.mouse_button_counter == 0
            &&& m.mouse_was_outside_window
            &&& m.cursor_icon == MouseCursor::Default
            &&& m.deferred_tasks.len() == 0
        }),
{
    styles_are_written_out();
}

/// A measured window has the size that was asked for, and the scale that was fixed where one was.
pub proof fn measured_window_has_the_wished_size(measured: Measured)
    requires
        measured.wf(),
    ensures
        measured.info().logical_size == measured.plan().size,
        measured.plan().scale_policy matches WindowScalePolicy::ScaleFactor(fixed)
            ==> measured.info().scale == fixed,
        measured.initial_dpi() is Some <==> measured.plan().scale_policy is SystemScaleFactor,
{
}

/// Once the actual DPI of a window is known, the window keeps its logical size and has the scale
/// and physical size that go with that DPI. Its client area is sized to that physical size, where
/// the window is, exactly if any of it differs from before; nothing else about the window changes.
/// A window with a scale of its own is left as it is.
pub proof fn actual_dpi_corrects_the_size(ready: Ready, r: Rescaled)
    ensures
        ready.rescaled_model(None) == ready.model(),
        ready.correction(None).len() == 0,
        ({
            let m = ready.model();
            let later = ready.rescaled_model(Some(r));
            let actions = ready.correction(Some(r));
            let info = WindowInfo {
                physical_size: r.physical,
                logical_size: m.window_info.logical_size,
                scale: r.scale,
            };
            &&& m.window_info.equals(info) ==> later == m && actions.len() == 0
            &&& !m.window_info.equals(info) ==> {
                &&& later.window_info == info
                &&& actions.len() == 1
                &&& actions[0] matches Action::SetClientSize(wish) && {
                    &&& wish.hwnd == m.hwnd
                    &&& wish.client_size == later.window_info.physical_size
                    &&& wish.dw_style == m.dw_style
                    &&& wish.parented == m.parented
                    &&& wish.dpi == Some(if r.reported == 0 { 96u32 } else { r.reported })
                    &&& wish.position is None
                }
            }
            &&& later == (WindowModel { window_info: later.window_info, ..m })
        }),
{
}

/// The opener's handle is no longer open when the window lets go of its end, and a window that
/// holds no end leaves it as it was.
pub proof fn handle_is_open_until_its_end_is_given_up(open: bool, hwnd: Hwnd)
    ensures
        !open_after_release(open, Some(hwnd)),
        open_after_release(open, None) == open,
{
}

} // verus!
