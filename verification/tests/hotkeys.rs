use micontrol_hw::hotkeys::{
    cancel_detect_mode, capture_key, check_script_action, dispatch_action,
    dispatch_consumer_usage, finish_detect_mode, get_detected_vk, handle_hid_wmi_event,
    handle_hotkey_message, handle_keyboard_raw_input, handle_raw_hid_report, has_consent,
    is_hook_active, is_openable_url, media_key_vk, migrate_config, read_in_memory,
    resolve_action, script_hash, start_detect_mode, update_in_memory, validate_script_path,
    wmi_key_debounced, ActionPlan, ConsumerAction, DebounceTable, DispatchEnv, HotkeyAction,
    HotkeyMap, HotkeyMessageOutcome, HotkeyStore, KeyBinding, PathResolution, RemapState,
    ScriptCheckResult, ScriptEnv, WmiKeyOutcome,
};
use micontrol_hw::performance::PerformanceMode;

fn script_env(flag: Option<u32>, consent: Option<String>) -> ScriptEnv {
    ScriptEnv {
        on_windows: true,
        enabled_flag: flag,
        resolution: PathResolution::NotFound,
        consent_file: consent,
    }
}

#[test]
fn test_script_hash_is_deterministic() {
    let args = vec!["-arg1".to_string(), "-arg2".to_string()];
    let h1 = script_hash("cmd", "C:\\test.bat", &args);
    let h2 = script_hash("cmd", "C:\\test.bat", &args);
    assert_eq!(h1, h2);
    assert_eq!(h1.len(), 64);
}

#[test]
fn test_script_hash_differs_for_different_paths() {
    let args = vec![];
    let h1 = script_hash("cmd", "C:\\test1.bat", &args);
    let h2 = script_hash("cmd", "C:\\test2.bat", &args);
    assert_ne!(h1, h2);
}

#[test]
fn test_script_hash_differs_for_different_interpreters() {
    let args = vec![];
    let h1 = script_hash("cmd", "C:\\test.bat", &args);
    let h2 = script_hash("powershell", "C:\\test.bat", &args);
    assert_ne!(h1, h2);
}

#[test]
fn test_script_hash_differs_for_different_args() {
    let h1 = script_hash("cmd", "C:\\test.bat", &vec!["a".to_string()]);
    let h2 = script_hash("cmd", "C:\\test.bat", &vec!["b".to_string()]);
    assert_ne!(h1, h2);
}

#[test]
fn script_hash_known_value() {
    // sha256 of "\0\0"
    assert_eq!(
        script_hash("", "", &vec![]),
        "96a296d224f285c67bee93c30f8a309157f0daa35dc5b87e410b78630a09cfc7"
    );
}

#[test]
fn test_validate_named_interpreters_allowed() {
    assert!(validate_script_path("powershell", "", true, &PathResolution::NotFound).is_ok());
    assert!(validate_script_path("cmd", "", true, &PathResolution::NotFound).is_ok());
}

#[test]
fn test_validate_allowlisted_executable_allowed() {
    assert!(validate_script_path("", "C:\\Windows\\System32\\cmd.exe", true, &PathResolution::NotFound).is_ok());
    assert!(validate_script_path(
        "",
        "C:\\Windows\\System32\\WindowsPowerShell\\v1.0\\powershell.exe",
        true,
        &PathResolution::NotFound
    )
    .is_ok());
    let found = PathResolution::Found {
        resolved: "\\\\?\\C:\\Windows\\System32\\cmd.exe".into(),
        allowed: vec!["\\\\?\\C:\\Windows\\System32\\cmd.exe".into()],
    };
    assert!(validate_script_path("", "c:/windows/system32/CMD.EXE", true, &found).is_ok());
}

#[test]
fn test_validate_arbitrary_path_rejected() {
    assert!(validate_script_path("", "C:\\evil\\malware.exe", true, &PathResolution::NotFound).is_err());
    assert!(validate_script_path("", "C:\\Users\\test\\download.exe", true, &PathResolution::NotFound).is_err());
    assert!(validate_script_path("", "C:\\Users\\attacker\\bin\\cmd.exe", true, &PathResolution::NotFound).is_err());
    let e = validate_script_path("", "..", true, &PathResolution::NotFound).unwrap_err();
    assert_eq!(e, "Script executable '..' has no valid file name component.");
}

#[test]
fn test_validate_rejected_on_non_windows() {
    assert!(validate_script_path("cmd", "test.bat", false, &PathResolution::NotFound).is_err());
}

#[test]
fn test_check_script_action_disabled_by_default() {
    let env = script_env(None, None);
    let result = check_script_action("cmd", "C:\\test.bat", &vec![], &env);
    assert_eq!(result, ScriptCheckResult::Disabled);
}

#[test]
fn script_check_needs_consent_then_allows() {
    let args: Vec<String> = vec![];
    let env = script_env(Some(1), None);
    assert_eq!(check_script_action("cmd", "C:\\test.bat", &args, &env), ScriptCheckResult::ConsentRequired);
    let hash = script_hash("cmd", "C:\\test.bat", &args);
    let consent = format!("{{\"{hash}\": true}}");
    assert!(has_consent("cmd", "C:\\test.bat", &args, &Some(consent.clone())));
    let env2 = script_env(Some(1), Some(consent));
    assert_eq!(check_script_action("cmd", "C:\\test.bat", &args, &env2), ScriptCheckResult::Allowed);
    match check_script_action("", "C:\\evil.exe", &args, &env2) {
        ScriptCheckResult::NotAllowlisted(m) => assert!(m.contains("not in the allowlist")),
        other => panic!("unexpected {other:?}"),
    }
}

#[test]
fn test_cancel_during_capture_aborts() {
    let mut state = RemapState::Idle;
    start_detect_mode(&mut state);
    cancel_detect_mode(&mut state);
    assert!(!capture_key(&mut state, 0x42), "capture after cancel should return false");
    assert!(matches!(state, RemapState::Idle), "state should be Idle after cancel");
    assert_eq!(get_detected_vk(&state), 0, "no key should be detected after cancel");
}

#[test]
fn test_begin_capture_commit() {
    let mut state = RemapState::Idle;
    start_detect_mode(&mut state);
    assert!(capture_key(&mut state, 0xB6), "capture should return true");
    assert_eq!(get_detected_vk(&state), 0xB6, "should return captured VK");
    assert!(
        matches!(state, RemapState::AwaitingKey { captured_vk } if captured_vk == 0xB6),
        "state should still be AwaitingKey with captured_vk=0xB6"
    );
    assert!(capture_key(&mut state, 0x42));
    assert_eq!(get_detected_vk(&state), 0xB6);
    assert_eq!(finish_detect_mode(&mut state), 0xB6);
    assert_eq!(state, RemapState::Idle);
}

#[test]
fn test_capture_when_idle() {
    let mut state = RemapState::Idle;
    assert!(!capture_key(&mut state, 0x42), "capture when Idle should return false");
    assert_eq!(get_detected_vk(&state), 0, "get_detected_vk should return 0 when Idle");
}

#[test]
fn test_http_url_accepted() {
    assert!("http://example.com".to_lowercase().starts_with("http://"));
    assert!(is_openable_url("http://example.com"));
}

#[test]
fn test_https_url_accepted() {
    assert!("https://example.com".to_lowercase().starts_with("https://"));
    assert!(is_openable_url("HTTPS://example.com"));
}

#[test]
fn test_file_url_rejected() {
    let url = "file:///C:/Windows/System32/";
    let lower = url.to_lowercase();
    assert!(!lower.starts_with("http://") && !lower.starts_with("https://"));
    assert!(!is_openable_url(url));
}

#[test]
fn test_javascript_url_rejected() {
    let url = "javascript:alert(1)";
    let lower = url.to_lowercase();
    assert!(!lower.starts_with("http://") && !lower.starts_with("https://"));
    assert!(!is_openable_url(url));
    assert!(!is_openable_url("javascript://example.com/%0aalert(1)"));
}

#[test]
fn test_data_url_rejected() {
    let url = "data:text/html,<script>alert(1)</script>";
    let lower = url.to_lowercase();
    assert!(!lower.starts_with("http://") && !lower.starts_with("https://"));
    assert!(!is_openable_url(url));
}

#[test]
fn test_different_keys_do_not_debounce_each_other() {
    let mut t = DebounceTable::new();
    assert!(!wmi_key_debounced(&mut t, 0x01, 1_000), "first fire of key 0x01 should not be debounced");
    assert!(!wmi_key_debounced(&mut t, 0x02, 1_010), "key 0x02 within window of key 0x01 should NOT be debounced");
    assert!(wmi_key_debounced(&mut t, 0x01, 1_020), "key 0x01 re-fired within window should be debounced");
}

#[test]
fn test_same_key_is_debounced() {
    let mut t = DebounceTable::new();
    assert!(!wmi_key_debounced(&mut t, 0x42, 5_000), "first fire should not be debounced");
    assert!(wmi_key_debounced(&mut t, 0x42, 5_001), "second fire within window should be debounced");
}

#[test]
fn test_first_call_not_debounced() {
    let mut t = DebounceTable::new();
    assert!(!wmi_key_debounced(&mut t, 0x99, 7), "first call should always be accepted");
    assert!(wmi_key_debounced(&mut t, 0x99, 8), "second call should be debounced");
}

#[test]
fn test_per_key_independence_by_class() {
    let mut t = DebounceTable::new();
    let key_a = (0u32 << 8) | 0x23;
    let key_b = (1u32 << 8) | 0x23;
    assert!(!wmi_key_debounced(&mut t, key_a, 100), "key_a first fire should not be debounced");
    assert!(!wmi_key_debounced(&mut t, key_b, 101), "key_b (different class, same detail byte) should NOT be debounced");
    assert!(wmi_key_debounced(&mut t, key_a, 102), "key_a second fire should be debounced");
}

#[test]
fn debounce_window_expires_and_stale_entries_purge() {
    let mut t = DebounceTable::new();
    assert!(!wmi_key_debounced(&mut t, 1, 0));
    assert!(!wmi_key_debounced(&mut t, 1, 400));
    assert!(!wmi_key_debounced(&mut t, 2, 100_000));
    assert_eq!(t.entries.len(), 1);
    assert_eq!(t.entries.get(&2), Some(&100_000));
}

#[test]
fn defaults_and_resolution() {
    let m = HotkeyMap::default();
    assert_eq!(m.copilot_key.action, HotkeyAction::RemapToKey { vk: 0xA3, extended: true });
    assert_eq!(m.ai_key.label.as_deref(), Some("Xiaomi AI Key (Fn+F7)"));
    let d = KeyBinding::default();
    assert!(!d.enabled && d.action == HotkeyAction::NoAction && d.label.is_none());
    let cfg = Some(m.clone());
    assert_eq!(resolve_action(&cfg, 0xB6), Some(HotkeyAction::FocusMicontrol));
    assert_eq!(resolve_action(&cfg, 0x41), None);
    assert_eq!(resolve_action(&None, 0xB6), None);
    let mut store = HotkeyStore { config: None };
    update_in_memory(&mut store, m.clone());
    assert!(store.config.is_none());
    assert_eq!(read_in_memory(&store), m);
    store.config = Some(m.clone());
    let mut m2 = m.clone();
    m2.ai_key.enabled = false;
    update_in_memory(&mut store, m2.clone());
    assert_eq!(read_in_memory(&store), m2);
    assert!(is_hook_active(false, 7) && !is_hook_active(false, 0));
}

#[test]
fn migration_upgrades_old_copilot_default_and_self_launch() {
    let mut m = HotkeyMap::default();
    m.copilot_key.action = HotkeyAction::FocusMicontrol;
    m.copilot_key.label = Some("Copilot Key".into());
    m.ai_key.action = HotkeyAction::LaunchApp { path: "C:\\MiControl.exe".into(), args: vec![] };
    let r = migrate_config(m, (true, false, false));
    assert_eq!(r.ai_key.action, HotkeyAction::FocusMicontrol);
    assert_eq!(r.copilot_key.action, HotkeyAction::RemapToKey { vk: 0xA3, extended: true });
    assert_eq!(r.copilot_key.label.as_deref(), Some("Copilot Key → Right Ctrl"));
}

#[test]
fn raw_input_and_hotkey_message_decisions() {
    assert_eq!(dispatch_consumer_usage(0x00CF), ConsumerAction::MicMuteOsd);
    assert_eq!(dispatch_consumer_usage(0x0271), ConsumerAction::KeyboardOsd);
    assert_eq!(dispatch_consumer_usage(0x0221), ConsumerAction::FocusMicontrol);
    assert_eq!(dispatch_consumer_usage(0x1234), ConsumerAction::Ignore);
    let mut st = RemapState::AwaitingKey { captured_vk: 0 };
    assert_eq!(handle_raw_hid_report(&mut st, &[0x02, 0xE2, 0x00]), ConsumerAction::MicMuteOsd);
    assert_eq!(get_detected_vk(&st), 0x80E2);
    let cfg = Some(HotkeyMap::default());
    let mut idle = RemapState::Idle;
    assert_eq!(handle_keyboard_raw_input(&mut idle, &cfg, 0xB7, 0), Some(HotkeyAction::FocusMicontrol));
    assert_eq!(handle_keyboard_raw_input(&mut idle, &cfg, 0xB7, 1), None);
    let mut det = RemapState::AwaitingKey { captured_vk: 0 };
    let _ = handle_keyboard_raw_input(&mut det, &cfg, 0xA0, 0);
    assert_eq!(get_detected_vk(&det), 0);
    assert_eq!(
        handle_hotkey_message(&mut idle, &cfg, 103),
        HotkeyMessageOutcome::Remap { source: 0xC3, target: 0xA3, extended: true }
    );
    assert_eq!(handle_hotkey_message(&mut idle, &cfg, 7), HotkeyMessageOutcome::Ignored);
}

#[test]
fn wmi_events() {
    let cfg = Some(HotkeyMap::default());
    let mut st = RemapState::Idle;
    let mut t = DebounceTable::new();
    assert_eq!(
        handle_hid_wmi_event(&mut st, &mut t, &cfg, "HID_EVENT20", 0, true, &[1, 0x21, 0], 10),
        WmiKeyOutcome::MicMute { muted: true }
    );
    assert_eq!(
        handle_hid_wmi_event(&mut st, &mut t, &cfg, "HID_EVENT20", 0, true, &[1, 0x21, 0], 20),
        WmiKeyOutcome::Debounced
    );
    assert_eq!(
        handle_hid_wmi_event(&mut st, &mut t, &cfg, "HID_EVENT20", 0, true, &[1, 0x05, 7], 30),
        WmiKeyOutcome::KeyboardLevel(7)
    );
    assert_eq!(
        handle_hid_wmi_event(&mut st, &mut t, &cfg, "HID_EVENT20", 0, true, &[1, 0x25], 40),
        WmiKeyOutcome::Dispatch(HotkeyAction::FocusMicontrol)
    );
    assert_eq!(
        handle_hid_wmi_event(&mut st, &mut t, &cfg, "HID_EVENT20", 0, false, &[1, 0x26], 50),
        WmiKeyOutcome::Ignored
    );
    let mut det = RemapState::AwaitingKey { captured_vk: 0 };
    assert_eq!(
        handle_hid_wmi_event(&mut det, &mut t, &cfg, "HID_EVENT21", 1, true, &[1, 0x23], 60),
        WmiKeyOutcome::Detected
    );
    assert_eq!(get_detected_vk(&det), 0xA123);
}

#[test]
fn dispatch_plans() {
    let env = DispatchEnv { focus_registered: true, launch_is_self: false, script: script_env(None, None) };
    assert_eq!(
        dispatch_action(&HotkeyAction::OpenUrl { url: "file:///c:/x".into() }, &env),
        ActionPlan::RejectUrl
    );
    assert_eq!(
        dispatch_action(&HotkeyAction::SetPerformanceMode { mode: "long_battery".into() }, &env),
        ActionPlan::SetMode(PerformanceMode::LongBattery)
    );
    assert_eq!(
        dispatch_action(&HotkeyAction::SetPerformanceMode { mode: "tur\\u0062o".into() }, &env),
        ActionPlan::SetMode(PerformanceMode::Turbo)
    );
    assert_eq!(
        dispatch_action(&HotkeyAction::SetPerformanceMode { mode: "tur\"bo".into() }, &env),
        ActionPlan::UnknownMode
    );
    assert_eq!(
        dispatch_action(&HotkeyAction::MediaControl { action: "next".into() }, &env),
        ActionPlan::MediaKey(0xB0)
    );
    assert_eq!(media_key_vk("louder"), None);
    let args = vec!["x".to_string()];
    let hash = script_hash("cmd", "C:\\a.bat", &args);
    let env2 = DispatchEnv {
        focus_registered: false,
        launch_is_self: true,
        script: script_env(Some(1), Some(format!("{{\"{hash}\": true}}"))),
    };
    assert_eq!(
        dispatch_action(&HotkeyAction::Script { interpreter: "cmd".into(), path: "C:\\a.bat".into(), args: args.clone() }, &env2),
        ActionPlan::Spawn { program: "cmd".into(), args: vec!["/C".into(), "C:\\a.bat".into(), "x".into()] }
    );
    assert_eq!(
        dispatch_action(&HotkeyAction::LaunchApp { path: "me.exe".into(), args: vec![] }, &env2),
        ActionPlan::Spawn { program: "me.exe".into(), args: vec![] }
    );
}
