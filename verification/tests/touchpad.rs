use micontrol_hw::hid_path::{
    hid_hardware_key, hid_instance_root, hid_vid_pid_key, is_touchpad_device_path,
    normalize_hid_path,
};
use micontrol_hw::touchpad::{
    apply_logical_maxima, brightness_after_down, brightness_after_up, charger_aware_y_deadband,
    handle_edge_slide,
    handle_five_finger_gesture, GestureState,
};
use micontrol_hw::touchpad_settings::{
    get_touchpad_info, haptics_report, ptp_sensitivity_value, sensitivity_from_reg,
    sensitivity_reg_value, set_touchpad_edge_slide, set_touchpad_gesture_screenshot,
    set_touchpad_sensitivity, HapticsIntensity, RegDword, TouchpadFlags, TouchpadRegValue,
    TouchpadRegistryValues, TouchpadSensitivity,
};

#[test]
fn normalize_hid_path_handles_case_and_prefix() {
    let raw = r"\??\HID#BLTP7853&COL04#5&ABC#{4D1E55B2-F16F-11CF-88CB-001111000030}";
    let norm = normalize_hid_path(raw);
    assert!(norm.starts_with(r"\\?\hid#bltp7853"));
}

#[test]
fn hid_hardware_key_strips_collection_suffix() {
    let path = r"\\?\hid#bltp7853&col04#5&abc#{4d1e55b2-f16f-11cf-88cb-001111000030}";
    let key = hid_hardware_key(path).expect("hardware key");
    assert_eq!(key, "bltp7853");
}

#[test]
fn hid_vid_pid_key_handles_mi_and_collection_variants() {
    let p1 = r"\\?\hid#vid_3151&pid_8888&mi_01&col05#7&abc#{4d1e55b2-f16f-11cf-88cb-001111000030}";
    let p2 = r"\\?\hid#vid_3151&pid_8888&mi_00&col01#7&def#{4d1e55b2-f16f-11cf-88cb-001111000030}";
    assert_eq!(hid_vid_pid_key(p1).as_deref(), Some("vid_3151&pid_8888"));
    assert_eq!(hid_vid_pid_key(p2).as_deref(), Some("vid_3151&pid_8888"));
}

#[test]
fn hid_instance_root_ignores_collection_suffix() {
    let p = r"\\?\hid#vid_3151&pid_8888&mi_01&col05#7&5a6d3c2&0&0004#{4d1e55b2-f16f-11cf-88cb-001111000030}";
    assert_eq!(hid_instance_root(p).as_deref(), Some("7&5a6d3c2&0"));
}

#[test]
fn touchpad_path_match_accepts_same_device_different_collection() {
    let raw = r"\\?\hid#bltp7853&col01#5&abc#{4d1e55b2-f16f-11cf-88cb-001111000030}";
    let touchpad = r"\\?\hid#bltp7853&col04#5&abc#{4d1e55b2-f16f-11cf-88cb-001111000030}";
    assert!(is_touchpad_device_path(raw, touchpad));
}

#[test]
fn touchpad_path_match_rejects_same_vid_pid_different_mi() {
    let raw = r"\\?\hid#vid_3151&pid_8888&mi_00&col01#7&abc#{4d1e55b2-f16f-11cf-88cb-001111000030}";
    let touchpad = r"\\?\hid#vid_3151&pid_8888&mi_01&col05#7&def#{4d1e55b2-f16f-11cf-88cb-001111000030}";
    assert!(!is_touchpad_device_path(raw, touchpad));
}

#[test]
fn touchpad_path_match_accepts_same_vid_pid_same_instance_root() {
    let raw = r"\\?\hid#vid_3151&pid_8888&mi_01&col01#7&5a6d3c2&0&0000#{4d1e55b2-f16f-11cf-88cb-001111000030}";
    let touchpad = r"\\?\hid#vid_3151&pid_8888&mi_01&col05#7&5a6d3c2&0&0004#{4d1e55b2-f16f-11cf-88cb-001111000030}";
    assert!(is_touchpad_device_path(raw, touchpad));
}

#[test]
fn touchpad_path_match_rejects_other_digitizer_hardware() {
    let raw = r"\\?\hid#elan2514&col01#7&def#{4d1e55b2-f16f-11cf-88cb-001111000030}";
    let touchpad = r"\\?\hid#bltp7853&col04#5&abc#{4d1e55b2-f16f-11cf-88cb-001111000030}";
    assert!(!is_touchpad_device_path(raw, touchpad));
}

#[test]
fn edge_slide_does_not_activate_if_touch_started_in_center() {
    let mut state = GestureState::default();
    let r1 = handle_edge_slide(&mut state, 1, 5000, 4000, true, false);
    assert_eq!(r1, (0, 0));
    assert!(state.edge.is_none());
    let r2 = handle_edge_slide(&mut state, 1, 200, 3800, true, false);
    assert_eq!(r2, (0, 0));
    assert!(state.edge.is_none());
}

#[test]
fn edge_slide_activates_if_touch_started_in_edge() {
    let mut state = GestureState::default();
    let r = handle_edge_slide(&mut state, 1, 200, 4000, true, false);
    assert_eq!(r, (0, 0));
    assert!(state.edge.is_some());
    assert!(!state.edge.as_ref().expect("edge state").captured);
}

#[test]
fn edge_slide_captures_only_after_clear_vertical_intent() {
    let mut state = GestureState::default();
    let _ = handle_edge_slide(&mut state, 1, 200, 4000, true, false);
    assert!(!state.edge.as_ref().expect("edge state").captured);
    let _ = handle_edge_slide(&mut state, 1, 240, 3992, true, false);
    assert!(!state.edge.as_ref().expect("edge state").captured);
    let _ = handle_edge_slide(&mut state, 1, 240, 3600, true, false);
    assert!(state.edge.as_ref().expect("edge state").captured);
}

#[test]
fn edge_slide_generates_steps_after_capture() {
    let mut state = GestureState::default();
    let _ = handle_edge_slide(&mut state, 1, 200, 4000, true, false);
    let _ = handle_edge_slide(&mut state, 1, 220, 3860, true, false);
    assert!(state.edge.as_ref().expect("edge state").captured);
    let (b, v) = handle_edge_slide(&mut state, 1, 220, 3500, true, false);
    assert!(b > 0, "expected brightness step after capture");
    assert_eq!(v, 0);
}

#[test]
fn edge_slide_still_captures_with_large_logical_range() {
    let mut state = GestureState::default();
    state.y_max = 65_535;
    state.x_max = 65_535;
    let _ = handle_edge_slide(&mut state, 1, 2_000, 32_000, true, false);
    assert!(state.edge.is_some());
    assert!(!state.edge.as_ref().expect("edge state").captured);
    let _ = handle_edge_slide(&mut state, 1, 2_100, 31_700, true, false);
    assert!(state.edge.as_ref().expect("edge state").captured);
    let (b, v) = handle_edge_slide(&mut state, 1, 2_100, 31_200, true, false);
    assert!(b > 0, "expected brightness step with high y_max");
    assert_eq!(v, 0);
}

#[test]
fn deadband_doubles_on_charger() {
    assert_eq!(charger_aware_y_deadband(7000, false), 140);
    assert_eq!(charger_aware_y_deadband(7000, true), 280);
}

#[test]
fn lost_contact_ends_captured_slide() {
    let mut state = GestureState::default();
    let _ = handle_edge_slide(&mut state, 1, 200, 4000, true, false);
    let _ = handle_edge_slide(&mut state, 1, 220, 3860, true, false);
    assert!(state.pointer_suppressed);
    for _ in 0..10 {
        let _ = handle_edge_slide(&mut state, 0, 0, 0, false, false);
    }
    assert!(state.edge.is_none());
    assert!(!state.pointer_suppressed);
}

#[test]
fn five_finger_hold_fires_once_then_cools_down() {
    let mut state = GestureState::default();
    assert!(!handle_five_finger_gesture(&mut state, 5, 1_000));
    assert!(handle_five_finger_gesture(&mut state, 5, 1_400));
    assert!(!handle_five_finger_gesture(&mut state, 5, 1_800));
}

#[test]
fn brightness_steps_clamp() {
    assert_eq!(brightness_after_up(95), 100);
    assert_eq!(brightness_after_down(3), 10);
    assert_eq!(brightness_after_down(50), 45);
}

#[test]
fn hardware_key_absent_without_hash() {
    assert_eq!(hid_hardware_key("nohash"), None);
    assert_eq!(hid_instance_root(r"\\?\hid#abc"), None);
}

#[test]
fn vid_pid_window_requires_eight_bytes() {
    assert_eq!(hid_vid_pid_key(r"\\?\hid#pid_12&vid_3"), None);
}

#[test]
fn normalize_trims_nul_and_slashes() {
    assert_eq!(normalize_hid_path("\0//?/HID#X\0"), r"\\?\hid#x");
}

#[test]
fn touchpad_settings_round_trip() {
    let (w, ptp) = set_touchpad_sensitivity(TouchpadSensitivity::VeryHigh);
    assert_eq!(w, RegDword { value: TouchpadRegValue::Sensitivity, data: 4 });
    assert_eq!(ptp, 5);
    assert_eq!(ptp_sensitivity_value(TouchpadSensitivity::Medium), 3);
    assert_eq!(sensitivity_from_reg(sensitivity_reg_value(TouchpadSensitivity::Low)), TouchpadSensitivity::Low);
    let reg = TouchpadRegistryValues {
        sensitivity: Some(3),
        haptics_enabled: Some(0),
        haptics_intensity: None,
        gesture_screenshot: Some(1),
        trackpad_repress: None,
        edge_slide: Some(7),
    };
    let info = get_touchpad_info(&Some(reg));
    assert_eq!(info.sensitivity, TouchpadSensitivity::High);
    assert!(!info.haptics_enabled);
    assert_eq!(info.haptics_intensity, HapticsIntensity::Medium);
    assert!(info.gesture_screenshot && info.edge_slide && !info.trackpad_repress);
    let d = get_touchpad_info(&None);
    assert!(d.haptics_enabled && !d.edge_slide);
}

#[test]
fn disabling_edge_slide_releases_pointer() {
    let mut flags = TouchpadFlags { gesture_screenshot: false, edge_slide: true };
    let mut g = GestureState::default();
    g.pointer_suppressed = true;
    let w = set_touchpad_edge_slide(&mut flags, &mut g, false);
    assert_eq!(w.data, 0);
    assert!(!flags.edge_slide && !g.pointer_suppressed);
    let w2 = set_touchpad_gesture_screenshot(&mut flags, true);
    assert_eq!(w2.value.name(), "GestureScreenshot");
    assert!(flags.gesture_screenshot);
}

#[test]
fn haptics_report_layout() {
    let r = haptics_report(true, HapticsIntensity::High, 3);
    assert_eq!(r, vec![7, 1, 2, 0, 0, 0, 0, 0]);
    assert_eq!(haptics_report(false, HapticsIntensity::Low, 200).len(), 64);
    assert_eq!(haptics_report(false, HapticsIntensity::Low, 20).len(), 20);
}

#[test]
fn extreme_raw_values_do_not_break_the_recogniser() {
    let mut state = GestureState::default();
    state.x_max = i32::MAX;
    state.y_max = i32::MAX;
    assert_eq!(charger_aware_y_deadband(i32::MAX, true), 85_899_345);
    // A touch in the left edge zone, then raw values that wrapped negative.
    assert_eq!(handle_edge_slide(&mut state, 1, 10, i32::MAX, true, false), (0, 0));
    assert_eq!(handle_edge_slide(&mut state, 1, 10, i32::MIN, true, true), (0, 0));
    assert!(state.edge.is_some());
    let (b, v) = handle_edge_slide(&mut state, 1, -5, i32::MIN + 1, true, true);
    assert_eq!(v, 0);
    assert!(b >= 0);
}

#[test]
fn logical_maxima_are_read_once() {
    let mut s = GestureState::default();
    apply_logical_maxima(&mut s, Some(65_535), Some(100));
    assert!(s.caps_read);
    assert_eq!(s.y_max, 65_535);
    assert_eq!(s.x_max, 10_000);
    apply_logical_maxima(&mut s, Some(2_000), Some(3_000));
    assert_eq!((s.x_max, s.y_max), (10_000, 65_535));
    let mut t = GestureState::default();
    apply_logical_maxima(&mut t, None, Some(4_096));
    assert_eq!((t.x_max, t.y_max), (4_096, 7_000));
}
