use baseview::class::{generate_guid, register_wnd_class, Guid};
use baseview::clipboard::{copy_to_clipboard, ClipboardError};
use baseview::dpi::{
    get_dpi_for_window, get_initial_dpi, DpiAwarenessScope, DpiQuery, ScopeEntry,
    DPI_AWARENESS_CONTEXT_PER_MONITOR_AWARE, DPI_AWARENESS_CONTEXT_PER_MONITOR_AWARE_V2,
};
use baseview::geometry::{
    window_info_changed, PhyPoint, PhySize, Real, Size, WindowInfo, WindowScalePolicy,
};
use baseview::placement::{
    client_size_to_window_rect, set_window_client_size, ClientSize, WindowPos, WindowRect,
};
use baseview::text::to_wide;
use baseview::win32::{Hwnd, Rect, GET_XBUTTON_WPARAM, HIWORD, LOWORD};

fn double(value: f64) -> Real {
    Real { bits: value.to_bits() }
}

fn info(width: u32, height: u32, logical: (f64, f64), scale: f64) -> WindowInfo {
    WindowInfo::from_logical_size(
        Size { width: double(logical.0), height: double(logical.1) },
        double(scale),
        PhySize { width, height },
    )
}

#[test]
fn reals_compare_as_doubles_do() {
    let values = [
        0.0,
        -0.0,
        1.0,
        -1.0,
        1.5,
        f64::MIN_POSITIVE,
        5e-324,
        f64::MAX,
        f64::INFINITY,
        f64::NEG_INFINITY,
        f64::NAN,
        -f64::NAN,
    ];
    for a in values {
        for b in values {
            assert_eq!(double(a).same_value(&double(b)), a == b, "{} {}", a, b);
        }
    }
}

#[test]
fn each_part_of_an_info_counts_as_a_change() {
    let base = info(800, 600, (400.0, 300.0), 2.0);
    assert!(!window_info_changed(&base, &base));
    assert!(window_info_changed(&base, &info(801, 600, (400.0, 300.0), 2.0)));
    assert!(window_info_changed(&base, &info(800, 601, (400.0, 300.0), 2.0)));
    assert!(window_info_changed(&base, &info(800, 600, (400.5, 300.0), 2.0)));
    assert!(window_info_changed(&base, &info(800, 600, (400.0, 299.0), 2.0)));
    assert!(window_info_changed(&base, &info(800, 600, (400.0, 300.0), 1.0)));
}

#[test]
fn zeros_are_no_change_and_nans_are() {
    assert!(!window_info_changed(&info(0, 0, (0.0, 0.0), 1.0), &info(0, 0, (-0.0, 0.0), 1.0)));
    let nan = info(0, 0, (0.0, 0.0), f64::NAN);
    assert!(window_info_changed(&nan, &nan));
}

#[test]
fn infos_hold_what_they_are_made_of() {
    let physical = PhySize { width: 3, height: 4 };
    let logical = Size { width: double(1.5), height: double(2.0) };
    let made = WindowInfo::from_physical_size(physical, double(2.0), logical);
    assert_eq!(made.physical_size(), physical);
    assert_eq!(made.logical_size(), logical);
    assert_eq!(made.scale(), double(2.0));
    assert_eq!(made, WindowInfo::from_logical_size(logical, double(2.0), physical));
}

#[test]
fn words_are_taken_apart() {
    assert_eq!(LOWORD(0x1234_ABCD), 0xABCD);
    assert_eq!(HIWORD(0x1234_ABCD), 0x1234);
    assert_eq!(GET_XBUTTON_WPARAM(0x0002_0040), 2);
}

#[test]
fn failed_dpi_query_counts_as_default() {
    assert_eq!(get_dpi_for_window(0), 96);
    assert_eq!(get_dpi_for_window(144), 144);
}

#[test]
fn initial_dpi_is_that_of_the_parent() {
    let parent = Hwnd { address: 0x55 };
    let null = Hwnd { address: 0 };
    assert_eq!(get_initial_dpi(true, parent), DpiQuery::Window(parent));
    assert_eq!(get_initial_dpi(true, null), DpiQuery::System);
    assert_eq!(get_initial_dpi(false, parent), DpiQuery::System);
}

/// A thread whose system accepts some contexts; zero is returned for the others.
struct Thread {
    context: isize,
    accepted: Vec<isize>,
}

impl Thread {
    fn set(&mut self, context: isize) -> isize {
        if self.accepted.contains(&context) {
            let previous = self.context;
            self.context = context;
            previous
        } else {
            0
        }
    }

    fn enter(&mut self, policy: WindowScalePolicy) -> DpiAwarenessScope {
        let mut entry = DpiAwarenessScope::for_scale_policy(policy);
        loop {
            entry = match entry {
                ScopeEntry::SetPerMonitorV2 => DpiAwarenessScope::after_v2(
                    self.set(DPI_AWARENESS_CONTEXT_PER_MONITOR_AWARE_V2),
                ),
                ScopeEntry::SetPerMonitor => {
                    DpiAwarenessScope::after_v1(self.set(DPI_AWARENESS_CONTEXT_PER_MONITOR_AWARE))
                }
                ScopeEntry::Entered(scope) => return scope,
            };
        }
    }
}

fn awareness_inside(policy: WindowScalePolicy, accepted: Vec<isize>) -> isize {
    let mut thread = Thread { context: -2, accepted };
    let scope = thread.enter(policy);
    let inside = thread.context;
    if let Some(previous) = scope.leave() {
        thread.context = previous;
    }
    assert_eq!(thread.context, -2);
    inside
}

#[test]
fn dpi_awareness_is_restored_on_every_system() {
    let system = WindowScalePolicy::SystemScaleFactor;
    assert_eq!(awareness_inside(system, vec![-3, -4]), -4);
    assert_eq!(awareness_inside(system, vec![-3]), -3);
    assert_eq!(awareness_inside(system, vec![]), -2);
    let fixed = WindowScalePolicy::ScaleFactor(double(1.5));
    assert_eq!(awareness_inside(fixed, vec![-3, -4]), -2);
}

#[test]
fn child_has_no_frame() {
    let size = PhySize { width: 640, height: 480 };
    let rect = Rect { left: 0, top: 0, right: 640, bottom: 480 };
    assert_eq!(client_size_to_window_rect(size, 7, true, Some(96)), WindowRect::Known(rect));
    assert_eq!(
        client_size_to_window_rect(size, 7, false, Some(96)),
        WindowRect::Adjust { rect, dw_style: 7, dpi: Some(96) }
    );
    assert_eq!(
        client_size_to_window_rect(size, 7, false, None),
        WindowRect::Adjust { rect, dw_style: 7, dpi: None }
    );
}

#[test]
fn huge_extents_keep_their_bits() {
    let size = PhySize { width: u32::MAX, height: 0x8000_0000 };
    assert_eq!(
        client_size_to_window_rect(size, 0, true, None),
        WindowRect::Known(Rect { left: 0, top: 0, right: -1, bottom: i32::MIN })
    );
}

#[test]
fn window_is_moved_only_to_a_position() {
    let hwnd = Hwnd { address: 9 };
    let rect = Rect { left: -8, top: -31, right: 648, bottom: 488 };
    assert_eq!(
        set_window_client_size(hwnd, rect, None),
        WindowPos { hwnd, x: 0, y: 0, width: 656, height: 519, flags: 0x16 }
    );
    assert_eq!(
        set_window_client_size(hwnd, rect, Some(PhyPoint { x: -5, y: 70 })),
        WindowPos { hwnd, x: -5, y: 70, width: 656, height: 519, flags: 0x14 }
    );
}

#[test]
fn client_size_wish_is_carried_out() {
    let wish = ClientSize {
        hwnd: Hwnd { address: 9 },
        client_size: PhySize { width: 10, height: 20 },
        dw_style: 0x94CF_0000,
        parented: false,
        dpi: Some(120),
        position: None,
    };
    let rect = Rect { left: 0, top: 0, right: 10, bottom: 20 };
    assert_eq!(
        wish.window_rect(),
        WindowRect::Adjust { rect, dw_style: 0x94CF_0000, dpi: Some(120) }
    );
    let pos = wish.window_pos(Rect { left: -1, top: -2, right: 11, bottom: 22 });
    assert_eq!((pos.width, pos.height, pos.flags), (12, 24, 0x16));
}

#[test]
fn extents_beyond_the_range_are_noticed() {
    let wide = Rect { left: i32::MIN, top: 0, right: 1, bottom: 0 };
    let tall = Rect { left: 0, top: i32::MIN, right: 0, bottom: 0 };
    let fine = Rect { left: i32::MIN, top: -1, right: -1, bottom: i32::MAX - 1 };
    assert!(!wide.is_measurable());
    assert!(!tall.is_measurable());
    assert!(fine.is_measurable());
    assert_eq!((fine.width(), fine.height()), (i32::MAX, i32::MAX));
}

#[test]
fn text_is_encoded_like_the_standard_library_does() {
    for text in ["", "plain", "\u{FFFF}\u{10000}", "a\u{1F600}b\u{10FFFF}", "\u{D7FF}\u{E000}é"] {
        let mut expected: Vec<u16> = text.encode_utf16().collect();
        expected.push(0);
        assert_eq!(to_wide(text), expected);
    }
    assert_eq!(to_wide("\u{1F600}"), vec![0xD83D, 0xDE00, 0]);
}

fn sample_guid() -> Guid {
    Guid { data1: 0xDEAD_BEEF, data2: 0x00A1, data3: 0, data4: [1, 0x23, 0, 0xFF, 9, 0x10, 0xA, 0x7F] }
}

#[test]
fn guid_has_two_digits_for_each_byte() {
    let guid = sample_guid();
    let expected = format!(
        "{:X}-{:X}-{:X}-{:02X}{:02X}-{:02X}{:02X}{:02X}{:02X}{:02X}{:02X}\0",
        guid.data1,
        guid.data2,
        guid.data3,
        guid.data4[0],
        guid.data4[1],
        guid.data4[2],
        guid.data4[3],
        guid.data4[4],
        guid.data4[5],
        guid.data4[6],
        guid.data4[7]
    );
    assert_eq!(generate_guid(&guid), expected);
    assert_eq!(generate_guid(&guid), "DEADBEEF-A1-0-0123-00FF09100A7F\0");
}

#[test]
fn class_name_holds_the_guid() {
    let class = register_wnd_class(&sample_guid());
    let mut expected: Vec<u16> =
        "Baseview-DEADBEEF-A1-0-0123-00FF09100A7F\0".encode_utf16().collect();
    expected.push(0);
    assert_eq!(class.class_name, expected);
    assert_eq!(class.style, 0x20);
}

#[test]
fn class_names_are_unique() {
    let guid = sample_guid();
    let mut others = vec![guid; 5];
    others[0].data4[0] = 0x12;
    others[0].data4[1] = 3;
    others[1].data4[2] = 0xF;
    others[1].data4[3] = 0xF;
    others[2].data1 = 0xDEAD_BEE;
    others[3].data2 = 0xA;
    others[4].data3 = 1;
    let name = register_wnd_class(&guid).class_name;
    for other in others {
        assert_ne!(register_wnd_class(&other).class_name, name);
    }
    let mut first = guid;
    let mut second = guid;
    first.data4 = [1, 0x11, 0, 0, 0, 0, 0, 0];
    second.data4 = [0x11, 1, 0, 0, 0, 0, 0, 0];
    assert_ne!(register_wnd_class(&first).class_name, register_wnd_class(&second).class_name);
    assert_eq!(register_wnd_class(&guid).class_name, name);
}

#[test]
fn clipboard_refuses_every_text() {
    assert_eq!(copy_to_clipboard("text"), Err(ClipboardError::Unsupported));
    assert_eq!(copy_to_clipboard(""), Err(ClipboardError::Unsupported));
}
