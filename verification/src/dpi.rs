//! DPI: which one a window starts with, and keeping DPI awareness local to its creation.

use vstd::prelude::*;

use crate::geometry::WindowScalePolicy;
use crate::win32::{Hwnd, DEFAULT_DPI};

verus! {

/// The DPI to go by, where the system reported `reported`: zero stands for a failed query.
pub open spec fn effective_dpi(reported: u32) -> u32 {
    if reported == 0 {
        DEFAULT_DPI
    } else {
        reported
    }
}

/// The DPI of a window, from what `GetDpiForWindow` reported. A failed query counts as the
/// default DPI.
pub fn get_dpi_for_window(reported: u32) -> (dpi: u32)
    ensures
        dpi == effective_dpi(reported),
        dpi > 0,
{
    if reported == 0 {
        DEFAULT_DPI
    } else {
        reported
    }
}

/// Whose DPI the system is asked for.
#[derive(Debug, Clone, Copy, PartialEq, Eq, Structural)]
pub enum DpiQuery {
    /// `GetDpiForWindow`
    Window(Hwnd),
    /// `GetDpiForSystem`
    System,
}

/// Whose DPI a new window starts with: its parent's, where it has one.
pub open spec fn initial_dpi_query(parented: bool, parent: Hwnd) -> DpiQuery {
    if parented && parent != Hwnd::null() {
        DpiQuery::Window(parent)
    } else {
        DpiQuery::System
    }
}

/// Decides whose DPI a new window starts with. What is reported goes through
/// `get_dpi_for_window` in either case.
pub fn get_initial_dpi(parented: bool, parent: Hwnd) -> (r: DpiQuery)
    ensures
        r == initial_dpi_query(parented, parent),
{
    if parented && !parent.is_null() {
        DpiQuery::Window(parent)
    } else {
        DpiQuery::System
    }
}

/// A thread's DPI awareness, as the value of its handle. Zero is the null handle, which stands
/// for a failed call.
pub type AwarenessContext = isize;

pub const DPI_AWARENESS_CONTEXT_PER_MONITOR_AWARE: AwarenessContext = -3;

pub const DPI_AWARENESS_CONTEXT_PER_MONITOR_AWARE_V2: AwarenessContext = -4;

/// What the thread's DPI awareness was before a window was created on it, where it was changed.
#[derive(Debug, Clone, Copy, PartialEq, Eq, Structural)]
pub struct DpiAwarenessScope {
    pub previous_context: Option<AwarenessContext>,
}

/// Where entering a scope stands.
#[derive(Debug, Clone, Copy, PartialEq, Eq, Structural)]
pub enum ScopeEntry {
    /// `SetThreadDpiAwarenessContext` has to be called with the newer context. What it returns
    /// goes to `DpiAwarenessScope::after_v2`.
    SetPerMonitorV2,
    /// The call has to be made with the older context. What it returns goes to
    /// `DpiAwarenessScope::after_v1`.
    SetPerMonitor,
    Entered(DpiAwarenessScope),
}

/// How a scope for a window with the given scale begins.
pub open spec fn scope_entry(scale_policy: WindowScalePolicy) -> ScopeEntry {
    if scale_policy is SystemScaleFactor {
        ScopeEntry::SetPerMonitorV2
    } else {
        ScopeEntry::Entered(DpiAwarenessScope { previous_context: None })
    }
}

/// How it goes on after the newer context was tried.
pub open spec fn entry_after_v2(previous_context: AwarenessContext) -> ScopeEntry {
    if previous_context == 0 {
        ScopeEntry::SetPerMonitor
    } else {
        ScopeEntry::Entered(DpiAwarenessScope { previous_context: Some(previous_context) })
    }
}

/// How it goes on after the older context was tried.
pub open spec fn entry_after_v1(previous_context: AwarenessContext) -> ScopeEntry {
    ScopeEntry::Entered(
        DpiAwarenessScope {
            previous_context: if previous_context == 0 {
                None
            } else {
                Some(previous_context)
            },
        },
    )
}

impl DpiAwarenessScope {
    /// Begins a scope. A window with a scale of its own leaves the thread alone; any other is
    /// created aware of the DPI of each monitor, without a change to the host's own default.
    pub fn for_scale_policy(scale_policy: WindowScalePolicy) -> (r: ScopeEntry)
        ensures
            r == scope_entry(scale_policy),
    {
        if !scale_policy.follows_system() {
            return ScopeEntry::Entered(DpiAwarenessScope { previous_context: None });
        }
        ScopeEntry::SetPerMonitorV2
    }

    /// Goes on once the newer context was tried: where the system does not know it, the older
    /// one is next.
    pub fn after_v2(previous_context: AwarenessContext) -> (r: ScopeEntry)
        ensures
            r == entry_after_v2(previous_context),
    {
        if previous_context != 0 {
            return ScopeEntry::Entered(DpiAwarenessScope { previous_context: Some(previous_context) });
        }
        ScopeEntry::SetPerMonitor
    }

    /// Goes on once the older context was tried too: where that failed, nothing was changed.
    pub fn after_v1(previous_context: AwarenessContext) -> (r: ScopeEntry)
        ensures
            r == entry_after_v1(previous_context),
    {
        ScopeEntry::Entered(
            DpiAwarenessScope {
                previous_context: if previous_context == 0 {
                    None
                } else {
                    Some(previous_context)
                },
            },
        )
    }

    /// Ends the scope: the context to set on the thread again, if any.
    pub fn leave(self) -> (r: Option<AwarenessContext>)
        ensures
            r == self.previous_context,
    {
        self.previous_context
    }
}

} // verus!
