//! Opening a window, stage by stage.
//!
//! Each stage takes what the system answered to the one before. A window's state leaves the last
//! stage only, so that no message reaches it before its handler is there.

use vstd::prelude::*;

use crate::action::Action;
use crate::dpi::{
    effective_dpi, get_dpi_for_window, get_initial_dpi, initial_dpi_query, scope_entry,
    DpiAwarenessScope, DpiQuery, ScopeEntry,
};
use crate::event::{Event, MouseCursor, WindowEvent};
use crate::geometry::{PhySize, Real, Size, WindowInfo, WindowScalePolicy};
use crate::handle::{ParentHandle, RawWindowHandle, WindowHandle};
use crate::model::WindowModel;
use crate::placement::{client_size_to_window_rect, ClientSize, WindowRect};
use crate::state::{GlContext, WindowState};
use crate::text::{to_wide, wide};
use crate::win32::{
    Hwnd, Rect, FRAME_INTERVAL, WIN_FRAME_TIMER, WS_BORDER, WS_CAPTION, WS_CHILD, WS_CLIPSIBLINGS,
    WS_MAXIMIZEBOX, WS_MINIMIZEBOX, WS_POPUP, WS_SIZEBOX, WS_SYSMENU, WS_VISIBLE,
};
use crate::window::Window;

verus! {

/// What a window is opened with.
#[derive(Debug)]
pub struct WindowOpenOptions {
    pub title: String,
    /// In logical pixels.
    pub size: Size,
    pub scale: WindowScalePolicy,
    /// Whether the window gets an OpenGL context.
    pub gl: bool,
}

/// What is settled about a window before the system is asked for anything.
#[verifier::ext_equal]
pub ghost struct Plan {
    pub parented: bool,
    pub parent: Hwnd,
    /// In UTF-16, ended by a zero.
    pub title: Seq<u16>,
    pub size: Size,
    pub scale_policy: WindowScalePolicy,
    pub gl: bool,
}

/// The style of a child, or of a window with a frame of its own.
pub open spec fn window_style(parented: bool) -> u32 {
    if parented {
        WS_CHILD | WS_VISIBLE
    } else {
        WS_POPUP | WS_BORDER | WS_SYSMENU | WS_CAPTION | WS_VISIBLE | WS_SIZEBOX | WS_MINIMIZEBOX
            | WS_MAXIMIZEBOX | WS_CLIPSIBLINGS
    }
}

impl Plan {
    pub open spec fn of(parented: bool, parent: Hwnd, options: WindowOpenOptions) -> Plan {
        Plan {
            parented,
            parent,
            title: wide(options.title@),
            size: options.size,
            scale_policy: options.scale,
            gl: options.gl,
        }
    }

    /// Whose DPI the window starts with, if it follows the system.
    pub open spec fn dpi_query(self) -> Option<DpiQuery> {
        if self.scale_policy is SystemScaleFactor {
            Some(initial_dpi_query(self.parented, self.parent))
        } else {
            None
        }
    }
}

/// The DPI that goes with a report, if there is one.
pub open spec fn reported_dpi(reported: Option<u32>) -> Option<u32> {
    match reported {
        Some(reported) => Some(effective_dpi(reported)),
        None => None,
    }
}

/// A window that is about to be opened.
#[derive(Debug)]
pub struct Opening {
    parented: bool,
    parent: Hwnd,
    title: Vec<u16>,
    size: Size,
    scale_policy: WindowScalePolicy,
    gl: bool,
}

impl View for Opening {
    type V = Plan;

    closed spec fn view(&self) -> Plan {
        Plan {
            parented: self.parented,
            parent: self.parent,
            title: self.title@,
            size: self.size,
            scale_policy: self.scale_policy,
            gl: self.gl,
        }
    }
}

impl<'a> Window<'a> {
    /// Opens a window inside another one.
    pub fn open_parented(parent: RawWindowHandle, options: WindowOpenOptions) -> (r: Opening)
        requires
            parent is Win32,
        ensures
            r@ == Plan::of(true, parent->hwnd, options),
            r@.parented,
            r@.parent == parent->hwnd,
            r@.title == wide(options.title@),
            r@.size == options.size,
            r@.scale_policy == options.scale,
            r@.gl == options.gl,
    {
        let hwnd = match parent {
            RawWindowHandle::Win32 { hwnd } => hwnd,
            RawWindowHandle::Other => Hwnd { address: 0 },
        };
        Self::open(true, hwnd, options)
    }

    /// Opens a window of its own. Messages are then fetched for as long as `keeps_pumping` says.
    pub fn open_blocking(options: WindowOpenOptions) -> (r: Opening)
        ensures
            r@ == Plan::of(false, Hwnd::null(), options),
            !r@.parented,
            r@.parent.address == 0,
            r@.title == wide(options.title@),
            r@.size == options.size,
            r@.scale_policy == options.scale,
            r@.gl == options.gl,
    {
        Self::open(false, Hwnd { address: 0 }, options)
    }

    /// Whether a message loop goes on after `GetMessageW` returned `status`. Only an error ends
    /// it.
    pub fn keeps_pumping(status: i32) -> (r: bool)
        ensures
            r == (status != -1),
    {
        status != -1
    }

    fn open(parented: bool, parent: Hwnd, options: WindowOpenOptions) -> (r: Opening)
        ensures
            r@ == Plan::of(parented, parent, options),
    {
        Opening {
            parented,
            parent,
            title: to_wide(options.title.as_str()),
            size: options.size,
            scale_policy: options.scale,
            gl: options.gl,
        }
    }
}

/// Where the scale of a new window comes from.
#[derive(Debug, Clone, Copy, PartialEq, Eq, Structural)]
pub enum Scaling {
    /// The quotient of this DPI and the default DPI.
    Dpi(u32),
    /// The scale itself.
    Factor(Real),
}

impl Opening {
    /// How the thread's DPI awareness is changed for as long as the window is being opened.
    pub fn dpi_awareness(&self) -> (r: ScopeEntry)
        ensures
            r == scope_entry(self@.scale_policy),
    {
        DpiAwarenessScope::for_scale_policy(self.scale_policy)
    }

    /// Whose DPI the window starts with.
    pub fn dpi_query(&self) -> (r: Option<DpiQuery>)
        ensures
            r == self@.dpi_query(),
    {
        if self.scale_policy.follows_system() {
            Some(get_initial_dpi(self.parented, self.parent))
        } else {
            None
        }
    }

    /// Goes on once the DPI was reported, where it was asked for.
    pub fn with_dpi(self, reported: Option<u32>) -> (r: Sizing)
        requires
            reported is Some <==> self@.dpi_query() is Some,
        ensures
            r.plan() == self@,
            r.initial_dpi() == reported_dpi(reported),
            r.wf(),
    {
        let initial_dpi = match reported {
            Some(reported) => Some(get_dpi_for_window(reported)),
            None => None,
        };
        Sizing { opening: self, initial_dpi }
    }
}

/// A window whose DPI is known.
#[derive(Debug)]
pub struct Sizing {
    opening: Opening,
    initial_dpi: Option<u32>,
}

impl Sizing {
    pub closed spec fn plan(self) -> Plan {
        self.opening@
    }

    pub closed spec fn initial_dpi(self) -> Option<u32> {
        self.initial_dpi
    }

    /// There is a DPI exactly where the window follows the system.
    pub open spec fn wf(self) -> bool {
        self.initial_dpi() is Some <==> self.plan().scale_policy is SystemScaleFactor
    }

    /// Where the window's scale comes from.
    pub open spec fn spec_scaling(self) -> Scaling {
        match self.plan().scale_policy {
            WindowScalePolicy::SystemScaleFactor => Scaling::Dpi(self.initial_dpi()->0),
            WindowScalePolicy::ScaleFactor(scale) => Scaling::Factor(scale),
        }
    }

    /// Where the window's scale comes from.
    pub fn scaling(&self) -> (r: Scaling)
        requires
            self.wf(),
        ensures
            r == self.spec_scaling(),
    {
        match self.opening.scale_policy {
            WindowScalePolicy::SystemScaleFactor => {
                let dpi: u32 = self.initial_dpi.unwrap();
                Scaling::Dpi(dpi)
            },
            WindowScalePolicy::ScaleFactor(scale) => Scaling::Factor(scale),
        }
    }

    /// The size to be multiplied by that scale.
    pub fn size(&self) -> (r: Size)
        ensures
            r == self.plan().size,
    {
        self.opening.size
    }

    /// Goes on once the scale and the physical size are known. A scale that the options fix is
    /// the one that is given.
    pub fn with_size(self, scale: Real, physical: PhySize) -> (r: Measured)
        requires
            self.wf(),
            self.plan().scale_policy matches WindowScalePolicy::ScaleFactor(fixed) ==> scale == fixed,
        ensures
            r.plan() == self.plan(),
            r.initial_dpi() == self.initial_dpi(),
            r.info() == (WindowInfo { physical_size: physical, logical_size: self.plan().size, scale }),
            r.wf(),
    {
        let window_info = WindowInfo::from_logical_size(self.opening.size, scale, physical);
        Measured { opening: self.opening, initial_dpi: self.initial_dpi, window_info }
    }
}

/// A window whose size is known in both units.
#[derive(Debug)]
pub struct Measured {
    opening: Opening,
    initial_dpi: Option<u32>,
    window_info: WindowInfo,
}

/// The arguments of the call that creates the window. There is no extended style, menu, instance
/// or parameter.
#[derive(Debug, Clone, Copy, PartialEq, Eq, Structural)]
pub struct CreateWindow {
    pub window_class: u16,
    pub dw_style: u32,
    pub x: i32,
    pub y: i32,
    pub width: i32,
    pub height: i32,
    pub parent: Hwnd,
}

impl Measured {
    pub closed spec fn plan(self) -> Plan {
        self.opening@
    }

    pub closed spec fn initial_dpi(self) -> Option<u32> {
        self.initial_dpi
    }

    pub closed spec fn info(self) -> WindowInfo {
        self.window_info
    }

    /// There is a DPI exactly where the window follows the system. The window has the size that
    /// was asked for, and the scale too where one was fixed.
    pub open spec fn wf(self) -> bool {
        &&& self.initial_dpi() is Some <==> self.plan().scale_policy is SystemScaleFactor
        &&& self.info().logical_size == self.plan().size
        &&& self.plan().scale_policy matches WindowScalePolicy::ScaleFactor(fixed)
            ==> self.info().scale == fixed
    }

    /// The state of the window, once it is created.
    pub open spec fn new_model(
        self,
        hwnd: Hwnd,
        window_class: u16,
        gl_context: Option<GlContext>,
    ) -> WindowModel {
        WindowModel {
            hwnd,
            window_class,
            window_info: self.info(),
            parent_handle: if self.plan().parented {
                Some(hwnd)
            } else {
                None
            },
            mouse_button_counter: 0,
            mouse_was_outside_window: true,
            cursor_icon: MouseCursor::Default,
            scale_policy: self.plan().scale_policy,
            dw_style: window_style(self.plan().parented),
            parented: self.plan().parented,
            deferred_tasks: seq![],
            gl_context,
        }
    }

    fn style(parented: bool) -> (r: u32)
        ensures
            r == window_style(parented),
    {
        if parented {
            WS_CHILD | WS_VISIBLE
        } else {
            WS_POPUP | WS_BORDER | WS_SYSMENU | WS_CAPTION | WS_VISIBLE | WS_SIZEBOX
                | WS_MINIMIZEBOX | WS_MAXIMIZEBOX | WS_CLIPSIBLINGS
        }
    }

    /// Finds the outer rectangle of the window, or the question to the system that does.
    pub fn window_rect(&self) -> (r: WindowRect)
        ensures
            r == (ClientSize {
                hwnd: Hwnd::null(),
                client_size: self.info().physical_size,
                dw_style: window_style(self.plan().parented),
                parented: self.plan().parented,
                dpi: self.initial_dpi(),
                position: None,
            }).spec_window_rect(),
    {
        client_size_to_window_rect(
            self.window_info.physical_size(),
            Self::style(self.opening.parented),
            self.opening.parented,
            self.initial_dpi,
        )
    }

    /// The title to create the window with, in UTF-16 and ended by a zero.
    pub fn title(&self) -> (r: &Vec<u16>)
        ensures
            r@ == self.plan().title,
    {
        &self.opening.title
    }

    /// Decides how the window is created, once its class is registered and its outer rectangle
    /// known.
    pub fn create_window(&self, window_class: u16, rect: Rect) -> (r: CreateWindow)
        requires
            rect.measurable(),
        ensures
            r == (CreateWindow {
                window_class,
                dw_style: window_style(self.plan().parented),
                x: 0,
                y: 0,
                width: rect.spec_width() as i32,
                height: rect.spec_height() as i32,
                parent: self.plan().parent,
            }),
    {
        CreateWindow {
            window_class,
            dw_style: Self::style(self.opening.parented),
            x: 0,
            y: 0,
            width: rect.width(),
            height: rect.height(),
            parent: self.opening.parent,
        }
    }

    /// What is done right after the window was created.
    pub fn setup(&self, hwnd: Hwnd) -> (r: Vec<Action>)
        ensures
            r@ == if self.plan().gl {
                seq![Action::InstallKeyboardHook(hwnd), Action::CreateGlContext(hwnd)]
            } else {
                seq![Action::InstallKeyboardHook(hwnd)]
            },
    {
        let mut actions: Vec<Action> = vec![Action::InstallKeyboardHook(hwnd)];
        if self.opening.gl {
            actions.push(Action::CreateGlContext(hwnd));
        }
        actions
    }

    /// Goes on once the window was created and set up. The handle of a window without a parent
    /// does not count as open.
    pub fn created(self, hwnd: Hwnd, window_class: u16, gl_context: Option<GlContext>) -> (r: (
        Created,
        WindowHandle,
    ))
        requires
            self.wf(),
            gl_context is Some <==> self.plan().gl,
        ensures
            r.0.model() == self.new_model(hwnd, window_class, gl_context),
            r.1.of() == hwnd,
            r.1.window() == Some(hwnd),
            r.1.open() == self.plan().parented,
    {
        let (parent_handle, mut window_handle) = ParentHandle::new(hwnd);
        let parent_handle = if self.opening.parented {
            Some(parent_handle)
        } else {
            parent_handle.release(&mut window_handle);
            None
        };
        let state = WindowState::new(
            hwnd,
            window_class,
            self.window_info,
            parent_handle,
            self.opening.scale_policy,
            Self::style(self.opening.parented),
            self.opening.parented,
            gl_context,
        );
        (Created { state }, window_handle)
    }
}

/// A window that has no handler yet.
#[derive(Debug)]
pub struct Created {
    state: WindowState,
}

impl Created {
    pub closed spec fn model(self) -> WindowModel {
        self.state@
    }

    /// The window, for its handler to be built with.
    pub fn create_window(&mut self) -> (r: Window<'_>)
        ensures
            r.model() == old(self).model(),
            final(self).model() == (*final(r.state))@,
    {
        self.state.create_window()
    }

    /// Goes on once the handler was built: the window can be dropped onto from now on.
    pub fn with_handler(self) -> (r: (Ready, Vec<Action>))
        ensures
            r.0.model() == self.model(),
            r.1@ == seq![Action::RegisterDropTarget(self.model().hwnd)],
    {
        let actions = vec![Action::RegisterDropTarget(self.state.hwnd())];
        (Ready { state: self.state }, actions)
    }
}

/// A window with a handler that messages do not reach yet.
#[derive(Debug)]
pub struct Ready {
    state: WindowState,
}

/// A window's DPI after its creation, and what goes with it.
#[derive(Debug, Clone, Copy, PartialEq, Eq, Structural)]
pub struct Rescaled {
    pub reported: u32,
    /// The scale that the effective DPI stands for.
    pub scale: Real,
    /// The logical size multiplied by that scale, in whole pixels.
    pub physical: PhySize,
}

impl Ready {
    pub closed spec fn model(self) -> WindowModel {
        self.state@
    }

    /// The window's state with its actual DPI.
    pub open spec fn rescaled_model(self, rescaled: Option<Rescaled>) -> WindowModel {
        match rescaled {
            Some(r) => self.model().updated(self.model().rescaled_info(r.scale, r.physical)),
            None => self.model(),
        }
    }

    /// The client area is sized again if the actual DPI made a difference.
    pub open spec fn correction(self, rescaled: Option<Rescaled>) -> Seq<Action> {
        match rescaled {
            Some(r) => {
                let m = self.model();
                if m.window_info.equals(m.rescaled_info(r.scale, r.physical)) {
                    seq![]
                } else {
                    seq![
                        Action::SetClientSize(
                            m.client_size(m.hwnd, r.physical, Some(effective_dpi(r.reported)), None),
                        ),
                    ]
                }
            },
            None => seq![],
        }
    }

    /// The window whose actual DPI is asked for, if it follows the system.
    pub fn dpi_query(&self) -> (r: Option<Hwnd>)
        ensures
            r == if self.model().scale_policy is SystemScaleFactor {
                Some(self.model().hwnd)
            } else {
                None
            },
    {
        if self.state.scale_policy().follows_system() {
            Some(self.state.hwnd())
        } else {
            None
        }
    }

    /// The size to be multiplied by the actual scale.
    pub fn logical_size(&self) -> (r: Size)
        ensures
            r == self.model().window_info.logical_size,
    {
        self.state.window_info().logical_size()
    }

    /// Goes on once the actual DPI is known, where it was asked for: messages reach the window,
    /// frames are drawn, and the size is corrected. After that the handler is told the size by
    /// `WindowState::initial_event`, and the tasks it deferred are handled.
    pub fn attach(self, rescaled: Option<Rescaled>) -> (r: (WindowState, Vec<Action>))
        requires
            rescaled is Some <==> self.model().scale_policy is SystemScaleFactor,
        ensures
            r.0@ == self.rescaled_model(rescaled),
            r.1@ == seq![
                Action::AttachState(self.model().hwnd),
                Action::StartTimer {
                    hwnd: self.model().hwnd,
                    id: WIN_FRAME_TIMER,
                    interval: FRAME_INTERVAL,
                },
            ] + self.correction(rescaled),
    {
        let mut state = self.state;
        let hwnd = state.hwnd();
        let mut actions = vec![
            Action::AttachState(hwnd),
            Action::StartTimer { hwnd, id: WIN_FRAME_TIMER, interval: FRAME_INTERVAL },
        ];
        if let Some(r) = rescaled {
            let dpi = get_dpi_for_window(r.reported);
            let info = WindowInfo::from_logical_size(
                state.window_info().logical_size(),
                r.scale,
                r.physical,
            );
            if state.update_window_info(info) {
                actions.push(
                    Action::SetClientSize(
                        state.client_size(hwnd, state.window_info().physical_size(), Some(dpi), None),
                    ),
                );
            }
        }
        (state, actions)
    }
}

impl WindowState {
    /// Tells the handler of a window that was just opened how large it is.
    pub fn initial_event(&self) -> (r: Action)
        ensures
            r == Action::Deliver(Event::Window(WindowEvent::Resized(self@.window_info))),
    {
        Action::Deliver(Event::Window(WindowEvent::Resized(self.window_info())))
    }
}

} // verus!
