//! On-screen display: its layout, the state shared with the OSD window, and
//! the show and animation steps that drive it.
use vstd::prelude::*;

verus! {

pub const OSD_W: i32 = 368;
pub const OSD_H: i32 = 92;
/// Half the height: a pill.
pub const CORNER_R: i32 = 46;
pub const NOTIF_W: i32 = 420;
pub const NOTIF_H: i32 = 150;
pub const NOTIF_R: i32 = 75;
pub const BAR_X: i32 = 64;
pub const BAR_END: i32 = 354;
pub const BAR_H: i32 = 8;
pub const BAR_Y: i32 = 42;
pub const ICON_X: i32 = 18;
pub const ICON_Y: i32 = 34;
pub const ICON_SZ: i32 = 23;
pub const TIMER_HIDE: usize = 1;
pub const TIMER_ANIM: usize = 2;
pub const HIDE_MS: u32 = 1500;
/// About 60 frames per second.
pub const ANIM_MS: u32 = 16;
/// Frames of one full spin (960 ms).
pub const SPIN_TOTAL_FRAMES: u8 = 60;
pub const FADE_IN_ALPHA_STEP: u8 = 28;
pub const FADE_OUT_ALPHA_STEP: u8 = 26;
/// WM_USER + 1: show the brightness OSD.
pub const WM_OSD_SHOW: u32 = 0x0401;
/// WM_USER + 2: show a notification OSD (mic, keyboard).
pub const WM_OSD_NOTIF: u32 = 0x0402;

/// A COLORREF: `0x00BBGGRR`.
pub open spec fn colorref(r: u8, g: u8, b: u8) -> int {
    (r as u32) + (g as u32) * 256 + (b as u32) * 65536
}

pub fn rgb(r: u8, g: u8, b: u8) -> (c: u32)
    ensures
        c == colorref(r, g, b),
{
    (r as u32) + (g as u32) * 256 + (b as u32) * 65536
}

/// Transparent corners (hot magenta).
pub const COLORKEY: u32 = 0x00FE_00FF;
/// Near-black card.
pub const BG: u32 = 0x001F_1F1F;
/// Unfilled bar track.
pub const BAR_TRACK: u32 = 0x0044_4444;
/// Filled bar: accent #0078D4.
pub const BAR_FILL: u32 = 0x00D4_7800;
pub const ICON_CLR: u32 = 0x00FF_FFFF;
/// Notification label text.
pub const TEXT_CLR: u32 = 0x00EB_EBEB;
/// Secondary notification text.
pub const TEXT2_CLR: u32 = 0x00A0_A0A0;

/// Each palette entry is the COLORREF of its channels.
pub proof fn law_palette_is_colorref()
    ensures
        COLORKEY == colorref(255, 0, 254),
        BG == colorref(31, 31, 31),
        BAR_TRACK == colorref(68, 68, 68),
        BAR_FILL == colorref(0, 120, 212),
        ICON_CLR == colorref(255, 255, 255),
        TEXT_CLR == colorref(235, 235, 235),
        TEXT2_CLR == colorref(160, 160, 160),
{
}

/// State shared between the callers and the OSD window thread.
#[derive(Debug, Clone, Copy, PartialEq, Eq, Structural)]
pub struct OsdState {
    /// The OSD window, 0 until it exists.
    pub hwnd: usize,
    /// Brightness level shown.
    pub level: u8,
    /// Bumped on every show, so that a pending hide knows it is stale.
    pub hide_ver: u64,
    pub alpha: u8,
    pub spin_frame: u8,
    /// 0 hidden, 1 fading in, 2 visible, 3 fading out.
    pub anim_phase: u8,
    pub mic_muted: bool,
    /// 0 brightness, 1 mic muted, 2 mic active, 3 keyboard backlight.
    pub mode: u8,
    pub notif_icon: u32,
    /// Keyboard backlight level, 0xFF when unknown.
    pub kbl_level: u8,
}

impl OsdState {
    pub fn new() -> (s: Self)
        ensures
            s.hwnd == 0 && s.level == 50 && s.hide_ver == 0 && s.alpha == 0 && s.spin_frame == 0
                && s.anim_phase == 0 && !s.mic_muted && s.mode == 0 && s.notif_icon == 0
                && s.kbl_level == 0xFF,
    {
        OsdState {
            hwnd: 0,
            level: 50,
            hide_ver: 0,
            alpha: 0,
            spin_frame: 0,
            anim_phase: 0,
            mic_muted: false,
            mode: 0,
            notif_icon: 0,
            kbl_level: 0xFF,
        }
    }
}

pub open spec fn bumped(v: u64) -> u64 {
    if v == u64::MAX {
        0
    } else {
        (v + 1) as u64
    }
}

fn bump(v: u64) -> (r: u64)
    ensures
        r == bumped(v),
{
    if v == u64::MAX {
        0
    } else {
        v + 1
    }
}

/// The window message to post, when the window exists.
pub open spec fn post_if(s: OsdState, msg: u32) -> Option<u32> {
    if s.hwnd == 0 {
        None
    } else {
        Some(msg)
    }
}

/// Shows the brightness OSD at `level`; returns the message to post.
pub fn show_brightness_osd(state: &mut OsdState, level: u8) -> (post: Option<u32>)
    ensures
        *final(state) == (OsdState {
            mode: 0,
            level,
            hide_ver: bumped(old(state).hide_ver),
            ..*old(state)
        }),
        post == post_if(*old(state), WM_OSD_SHOW),
{
    state.mode = 0;
    state.level = level;
    state.hide_ver = bump(state.hide_ver);
    if state.hwnd == 0 {
        None
    } else {
        Some(WM_OSD_SHOW)
    }
}

fn show_notification_osd(state: &mut OsdState, mode: u8, icon: u16) -> (post: Option<u32>)
    ensures
        *final(state) == (OsdState {
            mode,
            notif_icon: icon as u32,
            hide_ver: bumped(old(state).hide_ver),
            ..*old(state)
        }),
        post == post_if(*old(state), WM_OSD_NOTIF),
{
    state.mode = mode;
    state.notif_icon = icon as u32;
    state.hide_ver = bump(state.hide_ver);
    if state.hwnd == 0 {
        None
    } else {
        Some(WM_OSD_NOTIF)
    }
}

/// Mode and icon of the mic notification: muted (MicOff glyph) or active
/// (Microphone glyph).
pub open spec fn mic_mode(muted: bool) -> (u8, u16) {
    if muted {
        (1, 0xE8D4)
    } else {
        (2, 0xE720)
    }
}

/// Shows the mic OSD for a known mute state.
pub fn show_mic_mute_osd(state: &mut OsdState, muted: bool) -> (post: Option<u32>)
    ensures
        *final(state) == (OsdState {
            mic_muted: muted,
            mode: mic_mode(muted).0,
            notif_icon: mic_mode(muted).1 as u32,
            hide_ver: bumped(old(state).hide_ver),
            ..*old(state)
        }),
        post == post_if(*old(state), WM_OSD_NOTIF),
{
    state.mic_muted = muted;
    if muted {
        show_notification_osd(state, 1, 0xE8D4)
    } else {
        show_notification_osd(state, 2, 0xE720)
    }
}

/// The state after the mic key was toggled once.
pub open spec fn toggled(s: OsdState) -> OsdState {
    OsdState {
        mic_muted: !s.mic_muted,
        mode: mic_mode(!s.mic_muted).0,
        notif_icon: mic_mode(!s.mic_muted).1 as u32,
        hide_ver: bumped(s.hide_ver),
        ..s
    }
}

/// Flips the remembered mute state and shows it (the key is a toggle whose
/// result is not reported).
pub fn show_mic_mute_osd_toggle(state: &mut OsdState) -> (post: Option<u32>)
    ensures
        final(state).mic_muted == !old(state).mic_muted,
        *final(state) == toggled(*old(state)),
        post == post_if(*old(state), WM_OSD_NOTIF),
{
    let muted = !state.mic_muted;
    show_mic_mute_osd(state, muted)
}

/// Shows the keyboard backlight OSD (`level` 0xFF: unknown).
pub fn show_keyboard_osd(state: &mut OsdState, level: u8) -> (post: Option<u32>)
    ensures
        *final(state) == (OsdState {
            kbl_level: level,
            mode: 3,
            notif_icon: 0xE765,
            hide_ver: bumped(old(state).hide_ver),
            ..*old(state)
        }),
        post == post_if(*old(state), WM_OSD_NOTIF),
{
    state.kbl_level = level;
    show_notification_osd(state, 3, 0xE765)
}

/// Toggling the mic key twice restores the mute state and shows it with
/// the mode and icon of that state; only the hide counter moves on (by
/// two). When the mic state was on show, the whole state comes back.
pub proof fn law_toggle_twice_restores(s: OsdState)
    ensures
        toggled(toggled(s)).mic_muted == s.mic_muted,
        toggled(toggled(s)).mode == mic_mode(s.mic_muted).0,
        toggled(toggled(s)).notif_icon == mic_mode(s.mic_muted).1 as u32,
        toggled(toggled(s)) == (OsdState {
            mode: mic_mode(s.mic_muted).0,
            notif_icon: mic_mode(s.mic_muted).1 as u32,
            hide_ver: bumped(bumped(s.hide_ver)),
            ..s
        }),
        s.mode == mic_mode(s.mic_muted).0 && s.notif_icon == mic_mode(s.mic_muted).1 as u32
            ==> toggled(toggled(s)) == (OsdState { hide_ver: bumped(bumped(s.hide_ver)), ..s }),
{
}

/// Bar fill and label of a keyboard backlight byte: 0 off, 1-7 a third,
/// 8-63 two thirds, above full.
pub open spec fn kbl_info(raw: u8) -> (i32, Seq<char>) {
    if raw == 0 {
        (0, "Off"@)
    } else if raw <= 7 {
        (33, "33%"@)
    } else if raw <= 63 {
        (66, "66%"@)
    } else {
        (100, "100%"@)
    }
}

pub fn keyboard_level_info(raw: u8) -> (r: (i32, &'static str))
    ensures
        r.0 == kbl_info(raw).0,
        r.1@ == kbl_info(raw).1,
{
    if raw == 0 {
        (0, "Off")
    } else if raw <= 7 {
        (33, "33%")
    } else if raw <= 63 {
        (66, "66%")
    } else {
        (100, "100%")
    }
}

/// Width of the keyboard-backlight bar in the notification.
pub const NOTIF_BAR_W: i32 = 256;
/// Height of that bar; a fill narrower than this is not drawn.
pub const NOTIF_BAR_HT: i32 = 10;

/// The accent colour and state text of the mic notification: red and
/// "Muted", or green and "Active".
pub fn mic_notification_look(muted: bool) -> (r: (u32, &'static str))
    ensures
        r.0 == (if muted {
            colorref(210, 80, 80)
        } else {
            colorref(60, 200, 110)
        }),
        r.1@ == (if muted {
            "Muted"@
        } else {
            "Active"@
        }),
{
    if muted {
        (rgb(210, 80, 80), "Muted")
    } else {
        (rgb(60, 200, 110), "Active")
    }
}

/// The colour of the keyboard bar's fill at `pct` percent: dim blue up to
/// a third, the accent blue up to two thirds, amber above.
pub open spec fn bar_fill_colour(pct: int) -> int {
    if 1 <= pct <= 33 {
        colorref(80, 140, 220)
    } else if 34 <= pct <= 66 {
        BAR_FILL as int
    } else {
        colorref(255, 200, 80)
    }
}

/// The keyboard bar's fill for a level of `pct` percent (0 to 100): its
/// width and colour, or nothing when it would be narrower than the bar is
/// tall.
pub fn keyboard_bar_fill(pct: i32) -> (r: Option<(i32, u32)>)
    requires
        0 <= pct <= 100,
    ensures
        ({
            let w = pct * NOTIF_BAR_W / 100;
            if w >= NOTIF_BAR_HT {
                r == Some((w as i32, bar_fill_colour(pct as int) as u32))
            } else {
                r is None
            }
        }),
{
    let w = pct * NOTIF_BAR_W / 100;
    if w < NOTIF_BAR_HT {
        return None;
    }
    let c = if 1 <= pct && pct <= 33 {
        rgb(80, 140, 220)
    } else if 34 <= pct && pct <= 66 {
        BAR_FILL
    } else {
        rgb(255, 200, 80)
    };
    Some((w, c))
}

/// What the window does on a show message.
#[derive(Debug, Clone, Copy, PartialEq, Eq, Structural)]
pub enum ShowEffect {
    /// Fading in already: repaint only.
    Repaint,
    /// Visible: restart the hide countdown and repaint.
    ExtendHide,
    /// Hidden or fading out: restart the enter animation from transparent.
    StartAnimation,
}

/// The show step.
pub fn start_show_animation(state: &mut OsdState) -> (e: ShowEffect)
    ensures
        old(state).anim_phase == 1 ==> e == ShowEffect::Repaint && *final(state) == *old(state),
        old(state).anim_phase == 2 ==> e == ShowEffect::ExtendHide && *final(state) == *old(state),
        old(state).anim_phase != 1 && old(state).anim_phase != 2 ==> e == ShowEffect::StartAnimation
            && *final(state) == (OsdState { spin_frame: 0, alpha: 0, anim_phase: 1, ..*old(state) }),
{
    if state.anim_phase == 1 {
        ShowEffect::Repaint
    } else if state.anim_phase == 2 {
        ShowEffect::ExtendHide
    } else {
        state.spin_frame = 0;
        state.alpha = 0;
        state.anim_phase = 1;
        ShowEffect::StartAnimation
    }
}

/// What the window does on an animation frame.
#[derive(Debug, Clone, Copy, PartialEq, Eq, Structural)]
pub enum FrameEffect {
    /// Apply the new alpha and repaint.
    Repaint,
    /// Fully in: stop the animation timer and start the hide countdown.
    Shown,
    /// Fully out: stop the animation timer, reset to opaque and hide.
    Hidden,
    /// Nothing animating: stop the animation timer.
    Stop,
}

pub open spec fn sat_add(a: u8, b: u8) -> u8 {
    if a + b > 255 {
        255
    } else {
        (a + b) as u8
    }
}

/// One animation frame: fading in raises alpha by 28 (saturating) and
/// advances the spin, until both are complete; fading out lowers alpha by 26
/// until it is gone.
pub fn handle_anim_frame(state: &mut OsdState) -> (e: FrameEffect)
    requires
        old(state).spin_frame < 255,
    ensures
        old(state).anim_phase == 1 ==> ({
            let a = sat_add(old(state).alpha, FADE_IN_ALPHA_STEP);
            let sf = if old(state).spin_frame + 1 < SPIN_TOTAL_FRAMES {
                (old(state).spin_frame + 1) as u8
            } else {
                SPIN_TOTAL_FRAMES
            };
            let done = a == 255 && sf >= SPIN_TOTAL_FRAMES;
            &&& *final(state) == (OsdState {
                alpha: a,
                spin_frame: sf,
                anim_phase: if done {
                    2u8
                } else {
                    1u8
                },
                ..*old(state)
            })
            &&& e == (if done {
                FrameEffect::Shown
            } else {
                FrameEffect::Repaint
            })
        }),
        old(state).anim_phase == 3 ==> (if old(state).alpha <= FADE_OUT_ALPHA_STEP {
            *final(state) == (OsdState { alpha: 0, anim_phase: 0, ..*old(state) }) && e
                == FrameEffect::Hidden
        } else {
            *final(state) == (OsdState {
                alpha: (old(state).alpha - FADE_OUT_ALPHA_STEP) as u8,
                ..*old(state)
            }) && e == FrameEffect::Repaint
        }),
        old(state).anim_phase != 1 && old(state).anim_phase != 3 ==> *final(state) == *old(state)
            && e == FrameEffect::Stop,
{
    if state.anim_phase == 1 {
        let a: u8 = if state.alpha as u16 + FADE_IN_ALPHA_STEP as u16 > 255 {
            255
        } else {
            state.alpha + FADE_IN_ALPHA_STEP
        };
        state.alpha = a;
        let sf: u8 = if state.spin_frame + 1 < SPIN_TOTAL_FRAMES {
            state.spin_frame + 1
        } else {
            SPIN_TOTAL_FRAMES
        };
        state.spin_frame = sf;
        if a == 255 && sf >= SPIN_TOTAL_FRAMES {
            state.anim_phase = 2;
            FrameEffect::Shown
        } else {
            FrameEffect::Repaint
        }
    } else if state.anim_phase == 3 {
        if state.alpha <= FADE_OUT_ALPHA_STEP {
            state.alpha = 0;
            state.anim_phase = 0;
            FrameEffect::Hidden
        } else {
            state.alpha = state.alpha - FADE_OUT_ALPHA_STEP;
            FrameEffect::Repaint
        }
    } else {
        FrameEffect::Stop
    }
}

} // verus!
