use overlay_hijack::errors::OverlayError;
use overlay_hijack::vsync::{
    str_contains, swap_control_marker, wgl_extension_supported, SwapIntervalIo, VsyncProbe,
    VsyncState,
};

fn supporting_probe() -> VsyncProbe {
    VsyncProbe {
        extensions: Some(String::from(
            "WGL_ARB_extensions_string WGL_EXT_swap_control WGL_ARB_pixel_format",
        )),
        set_entry: Some(0x1000),
        get_entry: Some(0x2000),
    }
}

fn supported_state() -> VsyncState {
    let mut v = VsyncState::new();
    v.init(&supporting_probe()).unwrap();
    v
}

#[test]
fn contains_finds_pattern_in_middle() {
    assert!(str_contains("abcdef", "cde"));
}

#[test]
fn contains_finds_pattern_at_start_and_end() {
    assert!(str_contains("abcdef", "ab"));
    assert!(str_contains("abcdef", "ef"));
    assert!(str_contains("abcdef", "abcdef"));
}

#[test]
fn contains_rejects_absent_pattern() {
    assert!(!str_contains("abcdef", "xyz"));
    assert!(!str_contains("abcdef", "aba"));
    assert!(!str_contains("WGL_EXT_swap", "WGL_EXT_swap_control"));
}

#[test]
fn contains_empty_pattern_always_holds() {
    assert!(str_contains("abc", ""));
    assert!(str_contains("", ""));
}

#[test]
fn contains_pattern_longer_than_text_fails() {
    assert!(!str_contains("ab", "abc"));
    assert!(!str_contains("", "a"));
}

#[test]
fn marker_is_exact() {
    assert_eq!(swap_control_marker(), "WGL_EXT_swap_control");
}

#[test]
fn extension_probe_spots_marker() {
    let exts = Some(String::from("WGL_ARB_buffer_region WGL_EXT_swap_control WGL_EXT_colorspace"));
    assert!(wgl_extension_supported(&exts));
    let no_marker = Some(String::from("WGL_ARB_buffer_region WGL_EXT_colorspace"));
    assert!(!wgl_extension_supported(&no_marker));
    assert!(!wgl_extension_supported(&None));
}

#[test]
fn new_state_is_unsupported() {
    let v = VsyncState::new();
    assert!(!v.is_supported());
}

#[test]
fn probe_without_marker_reports_unsupported() {
    let mut v = VsyncState::new();
    let probe = VsyncProbe {
        extensions: Some(String::from("WGL_ARB_pixel_format")),
        set_entry: Some(0x1000),
        get_entry: Some(0x2000),
    };
    assert_eq!(v.init(&probe), Err(OverlayError::VsyncControlNotSupported));
    assert!(!v.is_supported());
}

#[test]
fn probe_with_marker_but_missing_entry_point_fails() {
    let mut v = VsyncState::new();
    let probe = VsyncProbe {
        extensions: Some(String::from("WGL_EXT_swap_control")),
        set_entry: Some(0x1000),
        get_entry: None,
    };
    assert_eq!(v.init(&probe), Err(OverlayError::FailedToGetVsyncFunctionPointers));
    assert!(!v.is_supported());
}

#[test]
fn successful_probe_grants_support() {
    let mut v = VsyncState::new();
    assert_eq!(v.init(&supporting_probe()), Ok(()));
    assert!(v.is_supported());
}

#[test]
fn set_when_unsupported_is_refused_without_driver() {
    let v = VsyncState::new();
    let io = SwapIntervalIo { set_accepted: true, readback_interval: 1 };
    assert_eq!(v.set_enabled(true, &io), Err(OverlayError::VsyncControlNotSupported));
    assert_eq!(v.get_current_state(1), None);
}

#[test]
fn set_then_get_reports_enabled() {
    let v = supported_state();
    let io = SwapIntervalIo { set_accepted: true, readback_interval: 1 };
    assert_eq!(v.set_enabled(true, &io), Ok(()));
    assert_eq!(v.get_current_state(io.readback_interval), Some(true));
}

#[test]
fn toggle_transitions_state() {
    let v = supported_state();
    let io_on = SwapIntervalIo { set_accepted: true, readback_interval: 1 };
    let io_off = SwapIntervalIo { set_accepted: true, readback_interval: 0 };
    assert_eq!(v.set_enabled(true, &io_on), Ok(()));
    assert_eq!(v.get_current_state(io_on.readback_interval), Some(true));
    assert_eq!(v.set_enabled(false, &io_off), Ok(()));
    assert_eq!(v.get_current_state(io_off.readback_interval), Some(false));
}

#[test]
fn rejected_set_fails() {
    let v = supported_state();
    let io = SwapIntervalIo { set_accepted: false, readback_interval: 0 };
    assert_eq!(v.set_enabled(true, &io), Err(OverlayError::FailedToSetVsyncState));
}

#[test]
fn disagreeing_readback_fails_verification() {
    let v = supported_state();
    let io = SwapIntervalIo { set_accepted: true, readback_interval: 0 };
    assert_eq!(v.set_enabled(true, &io), Err(OverlayError::FailedToVerifyVsyncState));
    let io2 = SwapIntervalIo { set_accepted: true, readback_interval: 1 };
    assert_eq!(v.set_enabled(false, &io2), Err(OverlayError::FailedToVerifyVsyncState));
}
