//! What holds of DPI awareness and of placement.

use vstd::prelude::*;

use crate::dpi::{
    entry_after_v1, entry_after_v2, scope_entry, AwarenessContext, DpiAwarenessScope, ScopeEntry,
    DPI_AWARENESS_CONTEXT_PER_MONITOR_AWARE, DPI_AWARENESS_CONTEXT_PER_MONITOR_AWARE_V2,
};
use crate::geometry::{PhyPoint, PhySize, WindowScalePolicy};
use crate::placement::{client_rect, window_pos, ClientSize, WindowRect};
use crate::win32::{
    as_signed_long, Hwnd, Rect, SWP_NOACTIVATE, SWP_NOMOVE, SWP_NOZORDER,
};

verus! {

/// The context of a thread after a call that sets it. A context that the system does not accept
/// changes nothing.
pub open spec fn thread_after(
    thread: AwarenessContext,
    context: AwarenessContext,
    accepted: bool,
) -> AwarenessContext {
    if accepted {
        context
    } else {
        thread
    }
}

/// What such a call returns: the context before, or null where it failed.
pub open spec fn returned(thread: AwarenessContext, accepted: bool) -> AwarenessContext {
    if accepted {
        thread
    } else {
        0
    }
}

/// The context of the thread inside the scope, and the scope, on a system that accepts the
/// contexts as given.
pub open spec fn inside(
    scale_policy: WindowScalePolicy,
    thread: AwarenessContext,
    accepts_v2: bool,
    accepts_v1: bool,
) -> (AwarenessContext, ScopeEntry) {
    match scope_entry(scale_policy) {
        ScopeEntry::SetPerMonitorV2 => {
            let entry = entry_after_v2(returned(thread, accepts_v2));
            let next = thread_after(thread, DPI_AWARENESS_CONTEXT_PER_MONITOR_AWARE_V2, accepts_v2);
            match entry {
                ScopeEntry::SetPerMonitor => (
                    thread_after(next, DPI_AWARENESS_CONTEXT_PER_MONITOR_AWARE, accepts_v1),
                    entry_after_v1(returned(next, accepts_v1)),
                ),
                _ => (next, entry),
            }
        },
        entry => (thread, entry),
    }
}

/// The context of the thread after the scope.
pub open spec fn outside(thread: AwarenessContext, scope: DpiAwarenessScope) -> AwarenessContext {
    match scope.previous_context {
        Some(context) => context,
        None => thread,
    }
}

/// DPI awareness is local to the opening of a window: afterwards the thread has the context that
/// it had before, whatever the system accepts. In between it has the best context that the system
/// accepts, or its own where the window has a scale of its own.
pub proof fn scope_leaves_no_trace(
    scale_policy: WindowScalePolicy,
    thread: AwarenessContext,
    accepts_v2: bool,
    accepts_v1: bool,
)
    requires
        thread != 0,
    ensures
        ({
            let (within, entry) = inside(scale_policy, thread, accepts_v2, accepts_v1);
            &&& entry is Entered
            &&& outside(within, entry->Entered_0) == thread
            &&& within == if !(scale_policy is SystemScaleFactor) {
                thread
            } else if accepts_v2 {
                DPI_AWARENESS_CONTEXT_PER_MONITOR_AWARE_V2
            } else if accepts_v1 {
                DPI_AWARENESS_CONTEXT_PER_MONITOR_AWARE
            } else {
                thread
            }
        }),
{
}

/// Sizing a window never raises or activates it, and it moves the window exactly if a position is
/// given.
pub proof fn sizing_moves_only_to_a_position(hwnd: Hwnd, rect: Rect, position: Option<PhyPoint>)
    ensures
        ({
            let flags = window_pos(hwnd, rect, position).flags;
            &&& flags & SWP_NOZORDER != 0
            &&& flags & SWP_NOACTIVATE != 0
            &&& (flags & SWP_NOMOVE == 0) == (position is Some)
        }),
{
    assert((0x4u32 | 0x10u32) & 0x4u32 != 0 && (0x4u32 | 0x10u32) & 0x10u32 != 0 && (0x4u32
        | 0x10u32) & 0x2u32 == 0) by (bit_vector);
    assert((0x4u32 | 0x10u32 | 0x2u32) & 0x4u32 != 0 && (0x4u32 | 0x10u32 | 0x2u32) & 0x10u32 != 0
        && (0x4u32 | 0x10u32 | 0x2u32) & 0x2u32 != 0) by (bit_vector);
}

/// A child window gets exactly the extents of its client area, as far as they are in the signed
/// range.
pub proof fn child_window_has_no_frame(wish: ClientSize)
    requires
        wish.parented,
    ensures
        wish.spec_window_rect() == WindowRect::Known(client_rect(wish.client_size)),
        client_rect(wish.client_size).measurable(),
        ({
            let pos = window_pos(wish.hwnd, client_rect(wish.client_size), wish.position);
            &&& pos.width == as_signed_long(wish.client_size.width as int)
            &&& pos.height == as_signed_long(wish.client_size.height as int)
        }),
{
}

/// A client area of any size that the system can have is asked for as it is, with its corner at
/// the origin.
pub proof fn client_area_is_asked_for_as_it_is(size: PhySize)
    ensures
        ({
            let rect = client_rect(size);
            &&& rect.left == 0 && rect.top == 0
            &&& size.width < 0x8000_0000 ==> rect.right == size.width
            &&& size.height < 0x8000_0000 ==> rect.bottom == size.height
            &&& (rect.right - size.width) % 0x1_0000_0000 == 0
            &&& (rect.bottom - size.height) % 0x1_0000_0000 == 0
        }),
{
}

/// A window without a parent has a frame of its style, which is measured at its DPI.
pub proof fn frame_is_measured_by_style_and_dpi(wish: ClientSize)
    requires
        !wish.parented,
    ensures
        wish.spec_window_rect() == (WindowRect::Adjust {
            rect: client_rect(wish.client_size),
            dw_style: wish.dw_style,
            dpi: wish.dpi,
        }),
{
}

/// A window is given exactly the extents of its outer rectangle, and the position if there is one.
pub proof fn window_gets_the_extents_of_its_rectangle(
    hwnd: Hwnd,
    rect: Rect,
    position: Option<PhyPoint>,
)
    requires
        rect.measurable(),
    ensures
        ({
            let pos = window_pos(hwnd, rect, position);
            &&& pos.hwnd == hwnd
            &&& pos.width == rect.right - rect.left
            &&& pos.height == rect.bottom - rect.top
            &&& position matches Some(corner) ==> pos.x == corner.x && pos.y == corner.y
            &&& position is None ==> pos.x == 0 && pos.y == 0
            &&& position is Some ==> pos.flags == 0x14
            &&& position is None ==> pos.flags == 0x16
        }),
{
    assert(0x4u32 | 0x10u32 == 0x14u32 && 0x4u32 | 0x10u32 | 0x2u32 == 0x16u32) by (bit_vector);
}

/// A rectangle can be measured exactly if both of its extents are in the signed range.
pub proof fn extents_are_differences(rect: Rect)
    ensures
        rect.spec_width() == rect.right - rect.left,
        rect.spec_height() == rect.bottom - rect.top,
        rect.measurable() <==> {
            &&& -0x8000_0000 <= rect.right - rect.left < 0x8000_0000
            &&& -0x8000_0000 <= rect.bottom - rect.top < 0x8000_0000
        },
{
}

/// The thread is left alone for a window with a scale of its own. For any other the newer context
/// is tried first, the older one exactly if that failed, and what the thread had before is kept
/// exactly if one of them was accepted.
pub proof fn contexts_are_tried_in_order(
    scale_policy: WindowScalePolicy,
    previous: AwarenessContext,
)
    ensures
        scale_policy is SystemScaleFactor ==> scope_entry(scale_policy)
            == ScopeEntry::SetPerMonitorV2,
        !(scale_policy is SystemScaleFactor) ==> scope_entry(scale_policy) == ScopeEntry::Entered(
            DpiAwarenessScope { previous_context: None },
        ),
        previous == 0 ==> entry_after_v2(previous) == ScopeEntry::SetPerMonitor,
        previous == 0 ==> entry_after_v1(previous) == ScopeEntry::Entered(
            DpiAwarenessScope { previous_context: None },
        ),
        previous != 0 ==> entry_after_v2(previous) == ScopeEntry::Entered(
            DpiAwarenessScope { previous_context: Some(previous) },
        ),
        previous != 0 ==> entry_after_v1(previous) == ScopeEntry::Entered(
            DpiAwarenessScope { previous_context: Some(previous) },
        ),
{
}

} // verus!
