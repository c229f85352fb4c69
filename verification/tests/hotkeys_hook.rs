use micontrol_hw::hotkeys::{
    grant_consent, has_consent, is_key_report_device, key_combo, keyboard_hook_proc, keyevent_flags,
    remap_keydown_strokes, remap_keyup_stroke, start_detect_mode, HookKey, HookVerdict,
    HotkeyAction, HotkeyMap, KeyStroke, RemapState, RemapTracking, VK_AI_KEY, VK_COPILOT,
    VK_F23, VK_RCONTROL,
};

fn key(vk: u32, down: bool) -> HookKey {
    HookKey { vk, keydown: down, keyup: !down, injected: false, lwin_down: false, lshift_down: false }
}

#[test]
fn copilot_key_is_remapped_to_right_ctrl() {
    let cfg = Some(HotkeyMap::default());
    let mut detect = RemapState::Idle;
    let mut t = RemapTracking::new();
    let v = keyboard_hook_proc(&mut detect, &mut t, &cfg, key(VK_COPILOT, true));
    assert_eq!(v, HookVerdict::RemapDown { vk: VK_RCONTROL, extended: true });
    assert_eq!(t.source_vk, VK_COPILOT);
    let v = keyboard_hook_proc(&mut detect, &mut t, &cfg, key(VK_COPILOT, false));
    assert_eq!(v, HookVerdict::RemapUp { vk: VK_RCONTROL, extended: true });
    assert_eq!(t, RemapTracking::new());
}

#[test]
fn f23_with_win_shift_starts_the_copilot_remap() {
    let cfg = Some(HotkeyMap::default());
    let mut detect = RemapState::Idle;
    let mut t = RemapTracking::new();
    let mut k = key(VK_F23, true);
    k.lwin_down = true;
    k.lshift_down = true;
    let v = keyboard_hook_proc(&mut detect, &mut t, &cfg, k);
    assert_eq!(v, HookVerdict::RemapDown { vk: VK_RCONTROL, extended: true });
    assert_eq!(t.source_vk, VK_F23);
    let v = keyboard_hook_proc(&mut detect, &mut t, &cfg, key(VK_F23, false));
    assert_eq!(v, HookVerdict::RemapUp { vk: VK_RCONTROL, extended: true });
    let v = keyboard_hook_proc(&mut detect, &mut t, &cfg, key(VK_F23, true));
    assert_eq!(v, HookVerdict::PassThrough);
}

#[test]
fn xiaomi_keys_are_swallowed_and_others_pass() {
    let cfg = Some(HotkeyMap::default());
    let mut detect = RemapState::Idle;
    let mut t = RemapTracking::new();
    assert_eq!(keyboard_hook_proc(&mut detect, &mut t, &cfg, key(VK_AI_KEY, true)), HookVerdict::Suppress);
    assert_eq!(keyboard_hook_proc(&mut detect, &mut t, &cfg, key(0x41, true)), HookVerdict::PassThrough);
    assert_eq!(keyboard_hook_proc(&mut detect, &mut t, &cfg, key(0x41, false)), HookVerdict::PassThrough);
    let mut m = HotkeyMap::default();
    m.copilot_key.action = HotkeyAction::NoAction;
    let cfg2 = Some(m);
    assert_eq!(keyboard_hook_proc(&mut detect, &mut t, &cfg2, key(VK_COPILOT, true)), HookVerdict::Suppress);
    assert_eq!(keyboard_hook_proc(&mut detect, &mut t, &None, key(VK_COPILOT, true)), HookVerdict::Suppress);
}

#[test]
fn detect_mode_records_and_passes_keys() {
    let cfg = Some(HotkeyMap::default());
    let mut detect = RemapState::Idle;
    start_detect_mode(&mut detect);
    let mut t = RemapTracking::new();
    let v = keyboard_hook_proc(&mut detect, &mut t, &cfg, key(VK_COPILOT, true));
    assert_eq!(v, HookVerdict::PassThrough);
    assert_eq!(detect, RemapState::AwaitingKey { captured_vk: VK_COPILOT });
    let v = keyboard_hook_proc(&mut detect, &mut t, &cfg, key(0x10, true));
    assert_eq!(v, HookVerdict::PassThrough);
    assert_eq!(detect, RemapState::AwaitingKey { captured_vk: VK_COPILOT });
}

#[test]
fn injected_keys_pass_untouched() {
    let cfg = Some(HotkeyMap::default());
    let mut detect = RemapState::Idle;
    let mut t = RemapTracking::new();
    let mut k = key(VK_COPILOT, true);
    k.injected = true;
    assert_eq!(keyboard_hook_proc(&mut detect, &mut t, &cfg, k), HookVerdict::PassThrough);
    assert_eq!(t, RemapTracking::new());
}

#[test]
fn win_shift_s_combo() {
    let s = key_combo(&vec![0x5B, 0x10], 0x53);
    let got: Vec<(u16, bool)> = s.iter().map(|k| (k.vk, k.up)).collect();
    assert_eq!(got, vec![(0x5B, false), (0x10, false), (0x53, false), (0x53, true), (0x10, true), (0x5B, true)]);
    assert_eq!(key_combo(&vec![], 0xAF).len(), 2);
}

#[test]
fn remap_strokes() {
    let s = remap_keydown_strokes(true, true, 0xA3, true);
    assert_eq!(
        s,
        vec![
            KeyStroke { vk: 0xA0, up: true, extended: false },
            KeyStroke { vk: 0x5B, up: true, extended: true },
            KeyStroke { vk: 0xA3, up: false, extended: true },
        ]
    );
    assert_eq!(remap_keydown_strokes(false, false, 0x41, false).len(), 1);
    assert_eq!(remap_keyup_stroke(0xA3, true), KeyStroke { vk: 0xA3, up: true, extended: true });
    assert_eq!(keyevent_flags(true, true), 3);
    assert_eq!(keyevent_flags(false, true), 1);
    assert_eq!(keyevent_flags(true, false), 2);
}

#[test]
fn granted_consent_is_seen() {
    let args = vec!["-x".to_string()];
    let t = grant_consent("cmd", "C:\\a.bat", &args, &None).unwrap();
    assert!(has_consent("cmd", "C:\\a.bat", &args, &Some(t.clone())));
    assert!(!has_consent("cmd", "C:\\b.bat", &args, &Some(t.clone())));
    let t2 = grant_consent("cmd", "C:\\b.bat", &args, &Some(t)).unwrap();
    assert!(has_consent("cmd", "C:\\a.bat", &args, &Some(t2.clone())));
    assert!(has_consent("cmd", "C:\\b.bat", &args, &Some(t2)));
    let t3 = grant_consent("cmd", "C:\\a.bat", &args, &Some("[1]".to_string())).unwrap();
    assert_eq!(t3, "[\n  1\n]");
    assert!(!has_consent("cmd", "C:\\a.bat", &args, &Some(t3)));
    let t4 = grant_consent("cmd", "C:\\a.bat", &args, &Some("not json".to_string())).unwrap();
    assert!(has_consent("cmd", "C:\\a.bat", &args, &Some(t4)));
}

#[test]
fn test_consent_grant_and_check() {
    let interpreter = "cmd";
    let path = "C:\\test_consent.bat";
    let args = vec![];
    let written = grant_consent(interpreter, path, &args, &None).unwrap();
    assert!(has_consent(interpreter, path, &args, &Some(written)));
}

#[test]
fn key_report_devices() {
    assert!(is_key_report_device(0x0C, 0x01));
    assert!(!is_key_report_device(0x0C, 0x02));
    assert!(is_key_report_device(0xFF00, 0x0E));
    assert!(is_key_report_device(0xFFBC, 0x88));
    assert!(!is_key_report_device(0x01, 0x06));
}
