use micontrol_hw::osd::{
    handle_anim_frame, keyboard_bar_fill, keyboard_level_info, mic_notification_look, rgb, show_brightness_osd, show_keyboard_osd,
    show_mic_mute_osd, show_mic_mute_osd_toggle, start_show_animation, FrameEffect, OsdState,
    ShowEffect, ANIM_MS, BAR_END, BAR_FILL, BAR_H, BAR_TRACK, BAR_X, BAR_Y, BG, COLORKEY,
    CORNER_R, FADE_IN_ALPHA_STEP, FADE_OUT_ALPHA_STEP, HIDE_MS, ICON_CLR, ICON_SZ, ICON_X,
    ICON_Y, NOTIF_H, NOTIF_R, NOTIF_W, OSD_H, OSD_W, SPIN_TOTAL_FRAMES, TEXT2_CLR, TEXT_CLR,
    WM_OSD_NOTIF, WM_OSD_SHOW,
};

#[test]
fn test_constants_osd_dimensions() {
    assert_eq!(OSD_W, 368);
    assert_eq!(OSD_H, 92);
    assert_eq!(CORNER_R, 46);
    assert_eq!(CORNER_R, OSD_H / 2);
}

#[test]
fn test_constants_notification_dimensions() {
    assert_eq!(NOTIF_W, 420);
    assert_eq!(NOTIF_H, 150);
    assert_eq!(NOTIF_R, 75);
    assert_eq!(NOTIF_R, NOTIF_H / 2);
}

#[test]
fn test_constants_bar_layout() {
    assert_eq!(BAR_X, 64);
    assert_eq!(BAR_END, 354);
    assert_eq!(BAR_H, 8);
    assert_eq!(BAR_Y, 42);
}

#[test]
fn test_constants_icon_layout() {
    assert_eq!(ICON_X, 18);
    assert_eq!(ICON_Y, 34);
    assert_eq!(ICON_SZ, 23);
}

#[test]
fn test_constants_colours() {
    assert_eq!(COLORKEY, rgb(255, 0, 254));
    assert_eq!(BG, rgb(31, 31, 31));
    assert_eq!(BAR_TRACK, rgb(68, 68, 68));
    assert_eq!(BAR_FILL, rgb(0, 120, 212));
    assert_eq!(ICON_CLR, rgb(255, 255, 255));
    assert_eq!(TEXT_CLR, rgb(235, 235, 235));
    assert_eq!(TEXT2_CLR, rgb(160, 160, 160));
}

#[test]
fn test_colourref_format() {
    assert_eq!(rgb(255, 0, 0), 0x0000_00FF);
    assert_eq!(rgb(0, 255, 0), 0x0000_FF00);
    assert_eq!(rgb(0, 0, 255), 0x00FF_0000);
    assert_eq!(rgb(128, 64, 32), 0x0020_4080);
}

#[test]
fn test_constants_timing() {
    assert_eq!(HIDE_MS, 1500);
    assert_eq!(ANIM_MS, 16);
    assert_eq!(SPIN_TOTAL_FRAMES, 60);
    assert_eq!(FADE_IN_ALPHA_STEP, 28);
    assert_eq!(FADE_OUT_ALPHA_STEP, 26);
}

#[test]
fn test_constants_window_messages() {
    assert_eq!(WM_OSD_SHOW, 0x0401);
    assert_eq!(WM_OSD_NOTIF, 0x0402);
}

#[test]
fn test_keyboard_level_off() {
    let (pct, label) = keyboard_level_info(0);
    assert_eq!(pct, 0);
    assert_eq!(label, "Off");
}

#[test]
fn test_keyboard_level_33_percent() {
    for raw in 1..=7 {
        let (pct, label) = keyboard_level_info(raw);
        assert_eq!(pct, 33);
        assert_eq!(label, "33%");
    }
}

#[test]
fn test_keyboard_level_66_percent() {
    for raw in 8..=63 {
        let (pct, label) = keyboard_level_info(raw);
        assert_eq!(pct, 66);
        assert_eq!(label, "66%");
    }
}

#[test]
fn test_keyboard_level_100_percent() {
    for raw in 64..=255u8 {
        let (pct, label) = keyboard_level_info(raw);
        assert_eq!(pct, 100);
        assert_eq!(label, "100%");
    }
}

#[test]
fn test_atomic_initial_hwnd() {
    assert_eq!(OsdState::new().hwnd, 0);
}

#[test]
fn test_atomic_initial_alpha() {
    assert_eq!(OsdState::new().alpha, 0);
}

#[test]
fn test_atomic_initial_anim_phase() {
    assert_eq!(OsdState::new().anim_phase, 0);
}

#[test]
fn test_atomic_initial_spin_frame() {
    assert_eq!(OsdState::new().spin_frame, 0);
}

#[test]
fn test_atomic_initial_osd_mode() {
    assert_eq!(OsdState::new().mode, 0);
}

#[test]
fn test_atomic_initial_mic_muted() {
    assert!(!OsdState::new().mic_muted);
}

#[test]
fn test_default_level_and_kbl() {
    let s = OsdState::new();
    assert_eq!(s.level, 50);
    assert_eq!(s.kbl_level, 0xFF);
}

#[test]
fn brightness_osd_without_window_posts_nothing() {
    let mut s = OsdState::new();
    assert_eq!(show_brightness_osd(&mut s, 70), None);
    assert_eq!(s.level, 70);
    assert_eq!(s.hide_ver, 1);
    assert_eq!(s.mode, 0);
}

#[test]
fn brightness_osd_with_window_posts_show() {
    let mut s = OsdState::new();
    s.hwnd = 42;
    s.mode = 3;
    assert_eq!(show_brightness_osd(&mut s, 10), Some(WM_OSD_SHOW));
    assert_eq!(s.mode, 0);
}

#[test]
fn hide_version_wraps() {
    let mut s = OsdState::new();
    s.hide_ver = u64::MAX;
    show_brightness_osd(&mut s, 1);
    assert_eq!(s.hide_ver, 0);
}

#[test]
fn mic_osd_modes_and_icons() {
    let mut s = OsdState::new();
    s.hwnd = 1;
    assert_eq!(show_mic_mute_osd(&mut s, true), Some(WM_OSD_NOTIF));
    assert!(s.mic_muted);
    assert_eq!(s.mode, 1);
    assert_eq!(s.notif_icon, 0xE8D4);
    show_mic_mute_osd(&mut s, false);
    assert_eq!(s.mode, 2);
    assert_eq!(s.notif_icon, 0xE720);
}

#[test]
fn mic_toggle_twice_restores() {
    let mut s = OsdState::new();
    show_mic_mute_osd_toggle(&mut s);
    assert!(s.mic_muted);
    show_mic_mute_osd_toggle(&mut s);
    assert!(!s.mic_muted);
    assert_eq!(s.mode, 2);
    assert_eq!(s.hide_ver, 2);
}

#[test]
fn keyboard_osd_sets_level_and_icon() {
    let mut s = OsdState::new();
    show_keyboard_osd(&mut s, 5);
    assert_eq!(s.kbl_level, 5);
    assert_eq!(s.mode, 3);
    assert_eq!(s.notif_icon, 0xE765);
}

#[test]
fn show_animation_steps() {
    let mut s = OsdState::new();
    s.alpha = 200;
    s.spin_frame = 9;
    assert_eq!(start_show_animation(&mut s), ShowEffect::StartAnimation);
    assert_eq!((s.alpha, s.spin_frame, s.anim_phase), (0, 0, 1));
    assert_eq!(start_show_animation(&mut s), ShowEffect::Repaint);
    s.anim_phase = 2;
    assert_eq!(start_show_animation(&mut s), ShowEffect::ExtendHide);
    s.anim_phase = 3;
    assert_eq!(start_show_animation(&mut s), ShowEffect::StartAnimation);
    assert_eq!(s.anim_phase, 1);
}

#[test]
fn fade_in_runs_until_spin_completes() {
    let mut s = OsdState::new();
    start_show_animation(&mut s);
    let mut frames = 0;
    loop {
        frames += 1;
        match handle_anim_frame(&mut s) {
            FrameEffect::Repaint => {}
            FrameEffect::Shown => break,
            other => panic!("unexpected {:?}", other),
        }
    }
    assert_eq!(frames, 60);
    assert_eq!(s.alpha, 255);
    assert_eq!(s.anim_phase, 2);
    assert_eq!(handle_anim_frame(&mut s), FrameEffect::Stop);
}

#[test]
fn fade_out_steps_down_to_hidden() {
    let mut s = OsdState::new();
    s.anim_phase = 3;
    s.alpha = 60;
    assert_eq!(handle_anim_frame(&mut s), FrameEffect::Repaint);
    assert_eq!(s.alpha, 34);
    assert_eq!(handle_anim_frame(&mut s), FrameEffect::Repaint);
    assert_eq!(s.alpha, 8);
    assert_eq!(handle_anim_frame(&mut s), FrameEffect::Hidden);
    assert_eq!((s.alpha, s.anim_phase), (0, 0));
}

#[test]
fn notification_looks() {
    assert_eq!(mic_notification_look(true), (rgb(210, 80, 80), "Muted"));
    assert_eq!(mic_notification_look(false), (rgb(60, 200, 110), "Active"));
    assert_eq!(keyboard_bar_fill(0), None);
    assert_eq!(keyboard_bar_fill(33), Some((84, rgb(80, 140, 220))));
    assert_eq!(keyboard_bar_fill(66), Some((168, BAR_FILL)));
    assert_eq!(keyboard_bar_fill(100), Some((256, rgb(255, 200, 80))));
}
