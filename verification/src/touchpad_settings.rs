//! Touchpad settings: their registry encoding, the haptics feature report,
//! and the feature flags that the gesture recogniser reads.
use vstd::prelude::*;
use crate::touchpad::GestureState;

verus! {

#[derive(Clone, Copy, Debug, PartialEq, Eq, Structural)]
pub enum TouchpadSensitivity {
    Low,
    Medium,
    High,
    VeryHigh,
}

#[derive(Clone, Copy, Debug, PartialEq, Eq, Structural)]
pub enum HapticsIntensity {
    Low,
    Medium,
    High,
}

#[derive(Clone, Copy, Debug, PartialEq, Eq, Structural)]
pub struct TouchpadInfo {
    pub sensitivity: TouchpadSensitivity,
    pub haptics_enabled: bool,
    pub haptics_intensity: HapticsIntensity,
    pub gesture_screenshot: bool,
    pub trackpad_repress: bool,
    pub edge_slide: bool,
}

/// The DWORD values kept under the touchpad's registry key.
#[derive(Clone, Copy, Debug, PartialEq, Eq, Structural)]
pub enum TouchpadRegValue {
    Sensitivity,
    HapticsEnabled,
    HapticsIntensity,
    GestureScreenshot,
    TrackpadRepress,
    EdgeSlide,
}

/// One DWORD to be written under the touchpad's registry key.
#[derive(Clone, Copy, Debug, PartialEq, Eq, Structural)]
pub struct RegDword {
    pub value: TouchpadRegValue,
    pub data: u32,
}

/// What was read from the touchpad's registry key; `None` where a value is absent.
#[derive(Clone, Copy, Debug, PartialEq, Eq, Structural)]
pub struct TouchpadRegistryValues {
    pub sensitivity: Option<u32>,
    pub haptics_enabled: Option<u32>,
    pub haptics_intensity: Option<u32>,
    pub gesture_screenshot: Option<u32>,
    pub trackpad_repress: Option<u32>,
    pub edge_slide: Option<u32>,
}

/// The feature flags that the gesture recogniser consults on every frame.
#[derive(Clone, Copy, Debug, PartialEq, Eq, Structural)]
pub struct TouchpadFlags {
    pub gesture_screenshot: bool,
    pub edge_slide: bool,
}

impl TouchpadRegValue {
    /// The registry value's name.
    pub fn name(&self) -> (r: &'static str)
        ensures
            r@ == (match *self {
                TouchpadRegValue::Sensitivity => "Sensitivity"@,
                TouchpadRegValue::HapticsEnabled => "HapticsEnabled"@,
                TouchpadRegValue::HapticsIntensity => "HapticsIntensity"@,
                TouchpadRegValue::GestureScreenshot => "GestureScreenshot"@,
                TouchpadRegValue::TrackpadRepress => "TrackpadRepress"@,
                TouchpadRegValue::EdgeSlide => "EdgeSlide"@,
            }),
    {
        match self {
            TouchpadRegValue::Sensitivity => "Sensitivity",
            TouchpadRegValue::HapticsEnabled => "HapticsEnabled",
            TouchpadRegValue::HapticsIntensity => "HapticsIntensity",
            TouchpadRegValue::GestureScreenshot => "GestureScreenshot",
            TouchpadRegValue::TrackpadRepress => "TrackpadRepress",
            TouchpadRegValue::EdgeSlide => "EdgeSlide",
        }
    }
}

pub open spec fn sensitivity_code(s: TouchpadSensitivity) -> u32 {
    match s {
        TouchpadSensitivity::Low => 1,
        TouchpadSensitivity::Medium => 2,
        TouchpadSensitivity::High => 3,
        TouchpadSensitivity::VeryHigh => 4,
    }
}

pub open spec fn sensitivity_of_code(v: u32) -> TouchpadSensitivity {
    if v == 1 {
        TouchpadSensitivity::Low
    } else if v == 3 {
        TouchpadSensitivity::High
    } else if v == 4 {
        TouchpadSensitivity::VeryHigh
    } else {
        TouchpadSensitivity::Medium
    }
}

pub open spec fn intensity_code(i: HapticsIntensity) -> u32 {
    match i {
        HapticsIntensity::Low => 1,
        HapticsIntensity::Medium => 2,
        HapticsIntensity::High => 3,
    }
}

pub open spec fn intensity_of_code(v: u32) -> HapticsIntensity {
    if v == 1 {
        HapticsIntensity::Low
    } else if v == 3 {
        HapticsIntensity::High
    } else {
        HapticsIntensity::Medium
    }
}

pub open spec fn flag_code(b: bool) -> u32 {
    if b {
        1
    } else {
        0
    }
}

/// The stored value, or the default when absent.
pub open spec fn or_default(v: Option<u32>, d: u32) -> u32 {
    match v {
        Some(x) => x,
        None => d,
    }
}

/// The settings in force when nothing has been stored.
pub open spec fn default_info() -> TouchpadInfo {
    TouchpadInfo {
        sensitivity: TouchpadSensitivity::Medium,
        haptics_enabled: true,
        haptics_intensity: HapticsIntensity::Medium,
        gesture_screenshot: false,
        trackpad_repress: false,
        edge_slide: false,
    }
}

/// The settings that a registry read describes.
pub open spec fn decode_info(reg: Option<TouchpadRegistryValues>) -> TouchpadInfo {
    match reg {
        None => default_info(),
        Some(r) => TouchpadInfo {
            sensitivity: sensitivity_of_code(or_default(r.sensitivity, 2)),
            haptics_enabled: or_default(r.haptics_enabled, 1) != 0,
            haptics_intensity: intensity_of_code(or_default(r.haptics_intensity, 2)),
            gesture_screenshot: or_default(r.gesture_screenshot, 0) != 0,
            trackpad_repress: or_default(r.trackpad_repress, 0) != 0,
            edge_slide: or_default(r.edge_slide, 0) != 0,
        },
    }
}

fn or_default_exec(v: Option<u32>, d: u32) -> (r: u32)
    ensures
        r == or_default(v, d),
{
    match v {
        Some(x) => x,
        None => d,
    }
}

pub fn sensitivity_reg_value(s: TouchpadSensitivity) -> (r: u32)
    ensures
        r == sensitivity_code(s),
{
    match s {
        TouchpadSensitivity::Low => 1,
        TouchpadSensitivity::Medium => 2,
        TouchpadSensitivity::High => 3,
        TouchpadSensitivity::VeryHigh => 4,
    }
}

pub fn sensitivity_from_reg(v: u32) -> (r: TouchpadSensitivity)
    ensures
        r == sensitivity_of_code(v),
{
    if v == 1 {
        TouchpadSensitivity::Low
    } else if v == 3 {
        TouchpadSensitivity::High
    } else if v == 4 {
        TouchpadSensitivity::VeryHigh
    } else {
        TouchpadSensitivity::Medium
    }
}

pub fn intensity_reg_value(i: HapticsIntensity) -> (r: u32)
    ensures
        r == intensity_code(i),
{
    match i {
        HapticsIntensity::Low => 1,
        HapticsIntensity::Medium => 2,
        HapticsIntensity::High => 3,
    }
}

pub fn intensity_from_reg(v: u32) -> (r: HapticsIntensity)
    ensures
        r == intensity_of_code(v),
{
    if v == 1 {
        HapticsIntensity::Low
    } else if v == 3 {
        HapticsIntensity::High
    } else {
        HapticsIntensity::Medium
    }
}

/// The touchpad settings stored in the registry; `None` when the key could
/// not be opened, which gives the defaults.
pub fn get_touchpad_info(reg: &Option<TouchpadRegistryValues>) -> (info: TouchpadInfo)
    ensures
        info == decode_info(*reg),
{
    match reg {
        None => TouchpadInfo {
            sensitivity: TouchpadSensitivity::Medium,
            haptics_enabled: true,
            haptics_intensity: HapticsIntensity::Medium,
            gesture_screenshot: false,
            trackpad_repress: false,
            edge_slide: false,
        },
        Some(r) => TouchpadInfo {
            sensitivity: sensitivity_from_reg(or_default_exec(r.sensitivity, 2)),
            haptics_enabled: or_default_exec(r.haptics_enabled, 1) != 0,
            haptics_intensity: intensity_from_reg(or_default_exec(r.haptics_intensity, 2)),
            gesture_screenshot: or_default_exec(r.gesture_screenshot, 0) != 0,
            trackpad_repress: or_default_exec(r.trackpad_repress, 0) != 0,
            edge_slide: or_default_exec(r.edge_slide, 0) != 0,
        },
    }
}

/// The Windows precision-touchpad sensitivity (1 = low .. 5 = high) that
/// matches a setting.
pub open spec fn ptp_code(s: TouchpadSensitivity) -> u32 {
    match s {
        TouchpadSensitivity::Low => 1,
        TouchpadSensitivity::Medium => 3,
        TouchpadSensitivity::High => 4,
        TouchpadSensitivity::VeryHigh => 5,
    }
}

pub fn ptp_sensitivity_value(s: TouchpadSensitivity) -> (r: u32)
    ensures
        r == ptp_code(s),
{
    match s {
        TouchpadSensitivity::Low => 1,
        TouchpadSensitivity::Medium => 3,
        TouchpadSensitivity::High => 4,
        TouchpadSensitivity::VeryHigh => 5,
    }
}

/// Changing the sensitivity writes its DWORD and the matching
/// precision-touchpad value.
pub fn set_touchpad_sensitivity(sensitivity: TouchpadSensitivity) -> (r: (RegDword, u32))
    ensures
        r.0 == (RegDword {
            value: TouchpadRegValue::Sensitivity,
            data: sensitivity_code(sensitivity),
        }),
        r.1 == ptp_code(sensitivity),
{
    (
        RegDword {
            value: TouchpadRegValue::Sensitivity,
            data: sensitivity_reg_value(sensitivity),
        },
        ptp_sensitivity_value(sensitivity),
    )
}

pub fn set_touchpad_haptics(enabled: bool) -> (r: RegDword)
    ensures
        r == (RegDword { value: TouchpadRegValue::HapticsEnabled, data: flag_code(enabled) }),
{
    RegDword { value: TouchpadRegValue::HapticsEnabled, data: if enabled { 1 } else { 0 } }
}

pub fn set_touchpad_haptics_intensity(intensity: HapticsIntensity) -> (r: RegDword)
    ensures
        r == (RegDword { value: TouchpadRegValue::HapticsIntensity, data: intensity_code(intensity) }),
{
    RegDword { value: TouchpadRegValue::HapticsIntensity, data: intensity_reg_value(intensity) }
}

/// Enabling or disabling the five-finger screenshot gesture.
pub fn set_touchpad_gesture_screenshot(flags: &mut TouchpadFlags, enabled: bool) -> (r: RegDword)
    ensures
        final(flags).gesture_screenshot == enabled,
        final(flags).edge_slide == old(flags).edge_slide,
        r == (RegDword { value: TouchpadRegValue::GestureScreenshot, data: flag_code(enabled) }),
{
    flags.gesture_screenshot = enabled;
    RegDword { value: TouchpadRegValue::GestureScreenshot, data: if enabled { 1 } else { 0 } }
}

pub fn set_touchpad_repress(enabled: bool) -> (r: RegDword)
    ensures
        r == (RegDword { value: TouchpadRegValue::TrackpadRepress, data: flag_code(enabled) }),
{
    RegDword { value: TouchpadRegValue::TrackpadRepress, data: if enabled { 1 } else { 0 } }
}

/// Enabling or disabling edge slides; disabling also hands the pointer back
/// at once if a slide held it.
pub fn set_touchpad_edge_slide(flags: &mut TouchpadFlags, gesture: &mut GestureState, enabled: bool) -> (r: RegDword)
    ensures
        final(flags).edge_slide == enabled,
        final(flags).gesture_screenshot == old(flags).gesture_screenshot,
        final(gesture).pointer_suppressed == (old(gesture).pointer_suppressed && enabled),
        *final(gesture) == (GestureState {
            pointer_suppressed: final(gesture).pointer_suppressed,
            ..*old(gesture)
        }),
        r == (RegDword { value: TouchpadRegValue::EdgeSlide, data: flag_code(enabled) }),
{
    flags.edge_slide = enabled;
    if !enabled {
        gesture.pointer_suppressed = false;
    }
    RegDword { value: TouchpadRegValue::EdgeSlide, data: if enabled { 1 } else { 0 } }
}

/// At start-up the persisted settings restore the feature flags.
pub fn start_gesture_listener(flags: &mut TouchpadFlags, info: &TouchpadInfo)
    ensures
        final(flags).gesture_screenshot == info.gesture_screenshot,
        final(flags).edge_slide == info.edge_slide,
{
    flags.gesture_screenshot = info.gesture_screenshot;
    flags.edge_slide = info.edge_slide;
}

/// The haptics feature report byte that encodes an intensity.
pub open spec fn intensity_report_byte(i: HapticsIntensity) -> u8 {
    match i {
        HapticsIntensity::Low => 0,
        HapticsIntensity::Medium => 1,
        HapticsIntensity::High => 2,
    }
}

/// Length of the haptics feature report: the device's feature report length,
/// held between 8 and 64 bytes.
pub open spec fn report_len(feature_len: int) -> int {
    if feature_len < 8 {
        8
    } else if feature_len > 64 {
        64
    } else {
        feature_len
    }
}

/// The haptics feature report: report id 7, the on/off byte, the intensity
/// byte, zero padding.
pub fn haptics_report(enabled: bool, intensity: HapticsIntensity, feature_len: usize) -> (r: Vec<u8>)
    ensures
        r.len() == report_len(feature_len as int),
        r[0] == 7,
        r[1] == flag_code(enabled) as u8,
        r[2] == intensity_report_byte(intensity),
        forall|i: int| 3 <= i < r.len() ==> r[i] == 0,
{
    let n: usize = if feature_len < 8 {
        8
    } else if feature_len > 64 {
        64
    } else {
        feature_len
    };
    let mut r: Vec<u8> = Vec::new();
    let mut i: usize = 0;
    while i < n
        invariant
            i <= n <= 64,
            r.len() == i,
            forall|k: int| 0 <= k < i ==> r[k] == 0,
        decreases n - i,
    {
        r.push(0);
        i += 1;
    }
    r.set(0, 7);
    r.set(1, if enabled { 1 } else { 0 });
    r.set(
        2,
        match intensity {
            HapticsIntensity::Low => 0,
            HapticsIntensity::Medium => 1,
            HapticsIntensity::High => 2,
        },
    );
    r
}

/// A stored sensitivity is read back as the same setting.
pub proof fn law_sensitivity_read_back(s: TouchpadSensitivity, reg: TouchpadRegistryValues)
    requires
        reg.sensitivity == Some(sensitivity_code(s)),
    ensures
        decode_info(Some(reg)).sensitivity == s,
{
}

/// A stored haptics intensity is read back as the same setting.
pub proof fn law_intensity_read_back(i: HapticsIntensity, reg: TouchpadRegistryValues)
    requires
        reg.haptics_intensity == Some(intensity_code(i)),
    ensures
        decode_info(Some(reg)).haptics_intensity == i,
{
}

/// A stored on/off setting is read back as the same flag.
pub proof fn law_flags_read_back(
    haptics: bool,
    screenshot: bool,
    repress: bool,
    edge: bool,
    reg: TouchpadRegistryValues,
)
    requires
        reg.haptics_enabled == Some(flag_code(haptics)),
        reg.gesture_screenshot == Some(flag_code(screenshot)),
        reg.trackpad_repress == Some(flag_code(repress)),
        reg.edge_slide == Some(flag_code(edge)),
    ensures
        decode_info(Some(reg)).haptics_enabled == haptics,
        decode_info(Some(reg)).gesture_screenshot == screenshot,
        decode_info(Some(reg)).trackpad_repress == repress,
        decode_info(Some(reg)).edge_slide == edge,
{
}

} // verus!
