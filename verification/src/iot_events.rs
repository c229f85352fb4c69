//! IoT power events: the per-user configuration, the parsing of mode names,
//! and the listener's tick that turns battery samples into notifications and
//! hook events.
use vstd::prelude::*;
use crate::performance::PerformanceMode;
use crate::text::{ascii_lower, chars_eq, chars_of, lower_seq, string_of, trim_ws, trim_ws_exec};

verus! {

/// Notification settings and the modes applied on AC and on battery.
#[derive(Debug, Clone, Copy, PartialEq, Eq, Structural)]
pub struct IotEventsConfig {
    pub enabled: bool,
    pub notify_ac_dc: bool,
    pub notify_charging: bool,
    pub notify_low_battery: bool,
    pub low_battery_pct: u8,
    pub on_ac_mode: Option<PerformanceMode>,
    pub on_battery_mode: Option<PerformanceMode>,
}

pub open spec fn default_config() -> IotEventsConfig {
    IotEventsConfig {
        enabled: true,
        notify_ac_dc: true,
        notify_charging: false,
        notify_low_battery: true,
        low_battery_pct: 20,
        on_ac_mode: None,
        on_battery_mode: None,
    }
}

impl Default for IotEventsConfig {
    fn default() -> (c: Self)
        ensures
            c == default_config(),
    {
        IotEventsConfig {
            enabled: true,
            notify_ac_dc: true,
            notify_charging: false,
            notify_low_battery: true,
            low_battery_pct: 20,
            on_ac_mode: None,
            on_battery_mode: None,
        }
    }
}

/// The mode a configured name stands for (ASCII case and surrounding
/// whitespace ignored; a few aliases accepted).
pub open spec fn mode_alias(s: Seq<char>) -> Option<PerformanceMode> {
    let t = trim_ws(lower_seq(s));
    if t == "silence"@ || t == "quiet"@ {
        Some(PerformanceMode::Silence)
    } else if t == "balance"@ || t == "balanced"@ {
        Some(PerformanceMode::Balance)
    } else if t == "turbo"@ || t == "performance"@ {
        Some(PerformanceMode::Turbo)
    } else if t == "decepticon"@ || t == "beast"@ {
        Some(PerformanceMode::Decepticon)
    } else if t == "smart"@ {
        Some(PerformanceMode::Smart)
    } else if t == "longbattery"@ || t == "long_battery"@ {
        Some(PerformanceMode::LongBattery)
    } else if t == "smartacceleration"@ || t == "smart_acceleration"@ {
        Some(PerformanceMode::SmartAcceleration)
    } else if t == "overdrive"@ {
        Some(PerformanceMode::Overdrive)
    } else if t == "overdrivehigh"@ || t == "overdrive_high"@ {
        Some(PerformanceMode::OverdriveHigh)
    } else if t == "overdrivemax"@ || t == "overdrive_max"@ {
        Some(PerformanceMode::OverdriveMax)
    } else if t == "smartadaptive"@ || t == "smart_adaptive"@ {
        Some(PerformanceMode::SmartAdaptive)
    } else {
        None
    }
}

fn is(v: &Vec<char>, s: &str) -> (r: bool)
    ensures
        r == (v@ == s@),
{
    chars_eq(v, &chars_of(s))
}

/// Parses a configured performance-mode name.
pub fn parse_mode(s: &str) -> (m: Option<PerformanceMode>)
    ensures
        m == mode_alias(s@),
{
    let t = trim_ws_exec(&ascii_lower(&chars_of(s)));
    if is(&t, "silence") || is(&t, "quiet") {
        Some(PerformanceMode::Silence)
    } else if is(&t, "balance") || is(&t, "balanced") {
        Some(PerformanceMode::Balance)
    } else if is(&t, "turbo") || is(&t, "performance") {
        Some(PerformanceMode::Turbo)
    } else if is(&t, "decepticon") || is(&t, "beast") {
        Some(PerformanceMode::Decepticon)
    } else if is(&t, "smart") {
        Some(PerformanceMode::Smart)
    } else if is(&t, "longbattery") || is(&t, "long_battery") {
        Some(PerformanceMode::LongBattery)
    } else if is(&t, "smartacceleration") || is(&t, "smart_acceleration") {
        Some(PerformanceMode::SmartAcceleration)
    } else if is(&t, "overdrive") {
        Some(PerformanceMode::Overdrive)
    } else if is(&t, "overdrivehigh") || is(&t, "overdrive_high") {
        Some(PerformanceMode::OverdriveHigh)
    } else if is(&t, "overdrivemax") || is(&t, "overdrive_max") {
        Some(PerformanceMode::OverdriveMax)
    } else if is(&t, "smartadaptive") || is(&t, "smart_adaptive") {
        Some(PerformanceMode::SmartAdaptive)
    } else {
        None
    }
}

/// The values under `HKCU\SOFTWARE\MiControl\IotEvents`; `None` where absent.
#[derive(Debug, Clone, PartialEq, Eq)]
pub struct IotEventsRegistry {
    pub enabled: Option<u32>,
    pub notify_ac_dc: Option<u32>,
    pub notify_charging: Option<u32>,
    pub notify_low_battery: Option<u32>,
    pub low_battery_pct: Option<u32>,
    pub on_ac_mode: Option<String>,
    pub on_battery_mode: Option<String>,
}

pub open spec fn dword_or(v: Option<u32>, d: u32) -> u32 {
    match v {
        Some(x) => x,
        None => d,
    }
}

/// A configured mode: absent or empty means none.
pub open spec fn mode_value(v: Option<String>) -> Option<PerformanceMode> {
    match v {
        Some(s) => if s@.len() == 0 {
            None
        } else {
            mode_alias(s@)
        },
        None => None,
    }
}

/// The configuration that registry values describe; the defaults when the
/// key is missing.
pub open spec fn config_from(reg: Option<IotEventsRegistry>) -> IotEventsConfig {
    match reg {
        None => default_config(),
        Some(r) => IotEventsConfig {
            enabled: dword_or(r.enabled, 1) != 0,
            notify_ac_dc: dword_or(r.notify_ac_dc, 1) != 0,
            notify_charging: dword_or(r.notify_charging, 0) != 0,
            notify_low_battery: dword_or(r.notify_low_battery, 1) != 0,
            low_battery_pct: (dword_or(r.low_battery_pct, 20) % 101) as u8,
            on_ac_mode: mode_value(r.on_ac_mode),
            on_battery_mode: mode_value(r.on_battery_mode),
        },
    }
}

fn dword_or_exec(v: Option<u32>, d: u32) -> (r: u32)
    ensures
        r == dword_or(v, d),
{
    match v {
        Some(x) => x,
        None => d,
    }
}

fn mode_value_exec(v: &Option<String>) -> (m: Option<PerformanceMode>)
    ensures
        m == mode_value(*v),
{
    match v {
        Some(s) => if s.as_str().is_empty() {
            None
        } else {
            parse_mode(s.as_str())
        },
        None => None,
    }
}

impl IotEventsConfig {
    /// The configuration stored in the registry (`None`: key missing).
    pub fn load(reg: &Option<IotEventsRegistry>) -> (c: Self)
        ensures
            c == config_from(*reg),
    {
        match reg {
            None => IotEventsConfig::default(),
            Some(r) => IotEventsConfig {
                enabled: dword_or_exec(r.enabled, 1) != 0,
                notify_ac_dc: dword_or_exec(r.notify_ac_dc, 1) != 0,
                notify_charging: dword_or_exec(r.notify_charging, 0) != 0,
                notify_low_battery: dword_or_exec(r.notify_low_battery, 1) != 0,
                low_battery_pct: (dword_or_exec(r.low_battery_pct, 20) % 101) as u8,
                on_ac_mode: mode_value_exec(&r.on_ac_mode),
                on_battery_mode: mode_value_exec(&r.on_battery_mode),
            },
        }
    }

    /// The registry values that store this configuration (modes by their
    /// variant names, an empty string for none).
    pub fn save(&self) -> (r: IotEventsRegistry)
        ensures
            r.enabled == Some(if self.enabled { 1u32 } else { 0u32 }),
            r.notify_ac_dc == Some(if self.notify_ac_dc { 1u32 } else { 0u32 }),
            r.notify_charging == Some(if self.notify_charging { 1u32 } else { 0u32 }),
            r.notify_low_battery == Some(if self.notify_low_battery { 1u32 } else { 0u32 }),
            r.low_battery_pct == Some(self.low_battery_pct as u32),
            r.on_ac_mode matches Some(s) && s@ == mode_variant_name(self.on_ac_mode),
            r.on_battery_mode matches Some(s) && s@ == mode_variant_name(self.on_battery_mode),
    {
        IotEventsRegistry {
            enabled: Some(if self.enabled { 1 } else { 0 }),
            notify_ac_dc: Some(if self.notify_ac_dc { 1 } else { 0 }),
            notify_charging: Some(if self.notify_charging { 1 } else { 0 }),
            notify_low_battery: Some(if self.notify_low_battery { 1 } else { 0 }),
            low_battery_pct: Some(self.low_battery_pct as u32),
            on_ac_mode: Some(string_of(&chars_of(variant_name(self.on_ac_mode)))),
            on_battery_mode: Some(string_of(&chars_of(variant_name(self.on_battery_mode)))),
        }
    }
}

/// The name a mode is saved under (its variant name), empty for none.
pub open spec fn mode_variant_name(m: Option<PerformanceMode>) -> Seq<char> {
    match m {
        None => ""@,
        Some(PerformanceMode::Silence) => "Silence"@,
        Some(PerformanceMode::Balance) => "Balance"@,
        Some(PerformanceMode::Turbo) => "Turbo"@,
        Some(PerformanceMode::Decepticon) => "Decepticon"@,
        Some(PerformanceMode::Overdrive) => "Overdrive"@,
        Some(PerformanceMode::OverdriveHigh) => "OverdriveHigh"@,
        Some(PerformanceMode::OverdriveMax) => "OverdriveMax"@,
        Some(PerformanceMode::SmartAdaptive) => "SmartAdaptive"@,
        Some(PerformanceMode::Smart) => "Smart"@,
        Some(PerformanceMode::LongBattery) => "LongBattery"@,
        Some(PerformanceMode::SmartAcceleration) => "SmartAcceleration"@,
    }
}

fn variant_name(m: Option<PerformanceMode>) -> (s: &'static str)
    ensures
        s@ == mode_variant_name(m),
{
    match m {
        None => "",
        Some(PerformanceMode::Silence) => "Silence",
        Some(PerformanceMode::Balance) => "Balance",
        Some(PerformanceMode::Turbo) => "Turbo",
        Some(PerformanceMode::Decepticon) => "Decepticon",
        Some(PerformanceMode::Overdrive) => "Overdrive",
        Some(PerformanceMode::OverdriveHigh) => "OverdriveHigh",
        Some(PerformanceMode::OverdriveMax) => "OverdriveMax",
        Some(PerformanceMode::SmartAdaptive) => "SmartAdaptive",
        Some(PerformanceMode::Smart) => "Smart",
        Some(PerformanceMode::LongBattery) => "LongBattery",
        Some(PerformanceMode::SmartAcceleration) => "SmartAcceleration",
    }
}

// ── Listener ────────────────────────────────────────────────────────────────

/// Adapter input below this many milliwatts while charging is a slow charger.
pub const SLOW_CHARGER_MW: i32 = 45_000;

/// Consecutive slow ticks (about 30 s at 5 s) before it is reported.
pub const SLOW_TICKS_NEEDED: u32 = 6;

/// What the battery reported on one tick.
#[derive(Debug, Clone, Copy, PartialEq, Eq, Structural)]
pub struct BatterySample {
    pub is_plugged: bool,
    pub is_charging: bool,
    pub level: u8,
    pub ac_input_power_mw: Option<i32>,
}

/// What the listener remembers between ticks.
#[derive(Debug, Clone, Copy, PartialEq, Eq, Structural)]
pub struct ListenerState {
    pub last_ac: Option<bool>,
    pub last_charging: Option<bool>,
    pub last_level: Option<u8>,
    pub last_adapter_mw: Option<i32>,
    pub slow_ticks: u32,
}

impl ListenerState {
    pub fn new() -> (s: Self)
        ensures
            s.last_ac is None && s.last_charging is None && s.last_level is None
                && s.last_adapter_mw is None && s.slow_ticks == 0,
    {
        ListenerState {
            last_ac: None,
            last_charging: None,
            last_level: None,
            last_adapter_mw: None,
            slow_ticks: 0,
        }
    }
}

/// Notifications the listener shows.
#[derive(Debug, Clone, Copy, PartialEq, Eq, Structural)]
pub enum PowerNotice {
    AcOn,
    AcOff,
    ChargingOn,
    ChargingOff,
    BatteryLow,
    SlowCharger,
}

impl PowerNotice {
    /// The icon glyph of the notification.
    pub fn glyph(&self) -> (g: u32)
        ensures
            g == (match *self {
                PowerNotice::AcOn | PowerNotice::AcOff => 0xE7E8u32,
                PowerNotice::ChargingOn | PowerNotice::ChargingOff => 0xE8B7u32,
                PowerNotice::BatteryLow | PowerNotice::SlowCharger => 0xECA5u32,
            }),
    {
        match self {
            PowerNotice::AcOn | PowerNotice::AcOff => 0xE7E8,
            PowerNotice::ChargingOn | PowerNotice::ChargingOff => 0xE8B7,
            PowerNotice::BatteryLow | PowerNotice::SlowCharger => 0xECA5,
        }
    }
}

/// Events handed to the registered hook (scenario rules).
#[derive(Debug, Clone, Copy, PartialEq, Eq, Structural)]
pub enum HookEvent {
    AcOn,
    AcOff,
    BatteryLow,
    SlowCharger,
}

impl HookEvent {
    /// The event's name: `ac_on`, `ac_off`, `battery_low`, `slow_charger`.
    pub fn name(&self) -> (s: &'static str)
        ensures
            s@ == (match *self {
                HookEvent::AcOn => "ac_on"@,
                HookEvent::AcOff => "ac_off"@,
                HookEvent::BatteryLow => "battery_low"@,
                HookEvent::SlowCharger => "slow_charger"@,
            }),
    {
        match self {
            HookEvent::AcOn => "ac_on",
            HookEvent::AcOff => "ac_off",
            HookEvent::BatteryLow => "battery_low",
            HookEvent::SlowCharger => "slow_charger",
        }
    }
}

/// One thing a tick does.
#[derive(Debug, Clone, Copy, PartialEq, Eq, Structural)]
pub enum TickAction {
    Notify(PowerNotice),
    Hook(HookEvent),
}

pub open spec fn opt_notice(on: bool, n: PowerNotice) -> Seq<TickAction> {
    if on {
        seq![TickAction::Notify(n)]
    } else {
        Seq::<TickAction>::empty()
    }
}

/// AC part: a change of the plugged state notifies (if enabled) and fires
/// `ac_on`/`ac_off`.
pub open spec fn ac_actions(s: ListenerState, c: IotEventsConfig, b: BatterySample) -> Seq<TickAction> {
    match s.last_ac {
        Some(prev) => if prev != b.is_plugged {
            opt_notice(
                c.notify_ac_dc,
                if b.is_plugged {
                    PowerNotice::AcOn
                } else {
                    PowerNotice::AcOff
                },
            ) + seq![
                TickAction::Hook(
                    if b.is_plugged {
                        HookEvent::AcOn
                    } else {
                        HookEvent::AcOff
                    },
                ),
            ]
        } else {
            Seq::<TickAction>::empty()
        },
        None => Seq::<TickAction>::empty(),
    }
}

/// Charging part: a change of the charging state notifies (if enabled).
pub open spec fn charging_actions(s: ListenerState, c: IotEventsConfig, b: BatterySample) -> Seq<TickAction> {
    match s.last_charging {
        Some(prev) => if prev != b.is_charging {
            opt_notice(
                c.notify_charging,
                if b.is_charging {
                    PowerNotice::ChargingOn
                } else {
                    PowerNotice::ChargingOff
                },
            )
        } else {
            Seq::<TickAction>::empty()
        },
        None => Seq::<TickAction>::empty(),
    }
}

/// Low-battery part: crossing the threshold downwards while not charging.
pub open spec fn low_actions(s: ListenerState, c: IotEventsConfig, b: BatterySample) -> Seq<TickAction> {
    match s.last_level {
        Some(level) => if b.level <= c.low_battery_pct && !(level <= c.low_battery_pct)
            && !b.is_charging {
            opt_notice(c.notify_low_battery, PowerNotice::BatteryLow) + seq![
                TickAction::Hook(HookEvent::BatteryLow),
            ]
        } else {
            Seq::<TickAction>::empty()
        },
        None => Seq::<TickAction>::empty(),
    }
}

/// Whether this tick counts as slow charging.
pub open spec fn slow_now(b: BatterySample) -> bool {
    b.is_plugged && b.is_charging && (b.ac_input_power_mw matches Some(mw) && mw < SLOW_CHARGER_MW)
}

/// The slow-tick counter after this tick.
pub open spec fn next_slow_ticks(s: ListenerState, b: BatterySample) -> u32 {
    if slow_now(b) {
        (s.slow_ticks + 1) as u32
    } else {
        0
    }
}

/// Slow-charger part: reported once, on the sixth consecutive slow tick.
pub open spec fn slow_actions(s: ListenerState, c: IotEventsConfig, b: BatterySample) -> Seq<TickAction> {
    if slow_now(b) && next_slow_ticks(s, b) == SLOW_TICKS_NEEDED {
        opt_notice(c.notify_charging, PowerNotice::SlowCharger) + seq![
            TickAction::Hook(HookEvent::SlowCharger),
        ]
    } else {
        Seq::<TickAction>::empty()
    }
}

/// The state after a sample.
pub open spec fn state_after(s: ListenerState, b: BatterySample) -> ListenerState {
    ListenerState {
        last_ac: Some(b.is_plugged),
        last_charging: Some(b.is_charging),
        last_level: Some(b.level),
        last_adapter_mw: if b.is_plugged {
            b.ac_input_power_mw
        } else {
            None
        },
        slow_ticks: next_slow_ticks(s, b),
    }
}

fn notice_if(out: &mut Vec<TickAction>, on: bool, n: PowerNotice)
    ensures
        final(out)@ == old(out)@ + opt_notice(on, n),
{
    if on {
        out.push(TickAction::Notify(n));
    } else {
        assert(out@ == out@ + Seq::<TickAction>::empty());
    }
}

fn push_ac(out: &mut Vec<TickAction>, s: &ListenerState, cfg: &IotEventsConfig, b: &BatterySample)
    ensures
        final(out)@ == old(out)@ + ac_actions(*s, *cfg, *b),
{
    let ghost start = out@;
    if let Some(prev) = s.last_ac {
        if prev != b.is_plugged {
            let n = if b.is_plugged {
                PowerNotice::AcOn
            } else {
                PowerNotice::AcOff
            };
            let h = if b.is_plugged {
                HookEvent::AcOn
            } else {
                HookEvent::AcOff
            };
            notice_if(out, cfg.notify_ac_dc, n);
            out.push(TickAction::Hook(h));
            assert(out@ == start + (opt_notice(cfg.notify_ac_dc, n) + seq![TickAction::Hook(h)]));
            return;
        }
    }
    assert(out@ == start + Seq::<TickAction>::empty());
}

fn push_charging(out: &mut Vec<TickAction>, s: &ListenerState, cfg: &IotEventsConfig, b: &BatterySample)
    ensures
        final(out)@ == old(out)@ + charging_actions(*s, *cfg, *b),
{
    if let Some(prev) = s.last_charging {
        if prev != b.is_charging {
            let n = if b.is_charging {
                PowerNotice::ChargingOn
            } else {
                PowerNotice::ChargingOff
            };
            notice_if(out, cfg.notify_charging, n);
            return;
        }
    }
    assert(out@ == out@ + Seq::<TickAction>::empty());
}

fn push_low(out: &mut Vec<TickAction>, s: &ListenerState, cfg: &IotEventsConfig, b: &BatterySample)
    ensures
        final(out)@ == old(out)@ + low_actions(*s, *cfg, *b),
{
    let ghost start = out@;
    if let Some(level) = s.last_level {
        let was_low = level <= cfg.low_battery_pct;
        let is_low = b.level <= cfg.low_battery_pct;
        if is_low && !was_low && !b.is_charging {
            notice_if(out, cfg.notify_low_battery, PowerNotice::BatteryLow);
            out.push(TickAction::Hook(HookEvent::BatteryLow));
            assert(out@ == start + (opt_notice(cfg.notify_low_battery, PowerNotice::BatteryLow)
                + seq![TickAction::Hook(HookEvent::BatteryLow)]));
            return;
        }
    }
    assert(out@ == start + Seq::<TickAction>::empty());
}

fn push_slow(out: &mut Vec<TickAction>, s: &ListenerState, cfg: &IotEventsConfig, b: &BatterySample) -> (ticks: u32)
    requires
        s.slow_ticks < u32::MAX,
    ensures
        final(out)@ == old(out)@ + slow_actions(*s, *cfg, *b),
        ticks == next_slow_ticks(*s, *b),
{
    let ghost start = out@;
    let slow = b.is_plugged && b.is_charging && match b.ac_input_power_mw {
        Some(mw) => mw < SLOW_CHARGER_MW,
        None => false,
    };
    if slow {
        let ticks = s.slow_ticks + 1;
        if ticks == SLOW_TICKS_NEEDED {
            notice_if(out, cfg.notify_charging, PowerNotice::SlowCharger);
            out.push(TickAction::Hook(HookEvent::SlowCharger));
            assert(out@ == start + (opt_notice(cfg.notify_charging, PowerNotice::SlowCharger)
                + seq![TickAction::Hook(HookEvent::SlowCharger)]));
        } else {
            assert(out@ == start + Seq::<TickAction>::empty());
        }
        ticks
    } else {
        assert(out@ == start + Seq::<TickAction>::empty());
        0
    }
}

/// One listener tick: nothing when the listener is disabled or the battery
/// could not be read; else the AC, charging, low-battery and slow-charger
/// transitions, in that order, and the sample is remembered.
pub fn tick(state: &mut ListenerState, cfg: &IotEventsConfig, sample: Option<BatterySample>) -> (actions: Vec<TickAction>)
    requires
        old(state).slow_ticks < u32::MAX,
    ensures
        !cfg.enabled || sample is None ==> actions@.len() == 0 && *final(state) == *old(state),
        cfg.enabled && sample is Some ==> ({
            let b = sample.unwrap();
            &&& actions@ == ac_actions(*old(state), *cfg, b) + charging_actions(*old(state), *cfg, b)
                + low_actions(*old(state), *cfg, b) + slow_actions(*old(state), *cfg, b)
            &&& *final(state) == state_after(*old(state), b)
        }),
{
    let mut out: Vec<TickAction> = Vec::new();
    if !cfg.enabled {
        return out;
    }
    let b = match sample {
        Some(b) => b,
        None => return out,
    };
    let s0 = *state;
    push_ac(&mut out, &s0, cfg, &b);
    push_charging(&mut out, &s0, cfg, &b);
    push_low(&mut out, &s0, cfg, &b);
    let ticks = push_slow(&mut out, &s0, cfg, &b);
    *state = ListenerState {
        last_ac: Some(b.is_plugged),
        last_charging: Some(b.is_charging),
        last_level: Some(b.level),
        last_adapter_mw: if b.is_plugged {
            b.ac_input_power_mw
        } else {
            None
        },
        slow_ticks: ticks,
    };
    assert(out@ == ac_actions(s0, *cfg, b) + charging_actions(s0, *cfg, b) + low_actions(s0, *cfg, b)
        + slow_actions(s0, *cfg, b));
    out
}

/// A scan on demand (after resume): one tick.
pub fn scan_now(state: &mut ListenerState, cfg: &IotEventsConfig, sample: Option<BatterySample>) -> (actions: Vec<TickAction>)
    requires
        old(state).slow_ticks < u32::MAX,
    ensures
        !cfg.enabled || sample is None ==> actions@.len() == 0 && *final(state) == *old(state),
        cfg.enabled && sample is Some ==> ({
            let b = sample.unwrap();
            &&& actions@ == ac_actions(*old(state), *cfg, b) + charging_actions(*old(state), *cfg, b)
                + low_actions(*old(state), *cfg, b) + slow_actions(*old(state), *cfg, b)
            &&& *final(state) == state_after(*old(state), b)
        }),
{
    tick(state, cfg, sample)
}

/// An unchanged sample produces no AC or charging events, and no hook fires
/// for the battery unless the level crossed the threshold downwards.
pub proof fn law_steady_sample_is_quiet(s: ListenerState, c: IotEventsConfig, b: BatterySample)
    requires
        s.last_ac == Some(b.is_plugged),
        s.last_charging == Some(b.is_charging),
        s.last_level == Some(b.level),
    ensures
        ac_actions(s, c, b).len() == 0,
        charging_actions(s, c, b).len() == 0,
        low_actions(s, c, b).len() == 0,
{
}

/// The slow-charger event fires at most once per slow period: it needs the
/// counter to reach exactly six, and the counter only grows while slow.
pub proof fn law_slow_charger_once(s: ListenerState, c: IotEventsConfig, b: BatterySample)
    requires
        s.slow_ticks >= SLOW_TICKS_NEEDED,
        s.slow_ticks < u32::MAX,
    ensures
        slow_actions(s, c, b).len() == 0,
{
}

/// Plugging in is announced exactly once: the tick that first sees the
/// adapter after it was unplugged fires `ac_on` (after the AC notice, when
/// enabled), no other part of that tick mentions it, and an immediate
/// second tick with the same reading fires nothing for the AC.
pub proof fn law_ac_on_fires_once(s: ListenerState, c: IotEventsConfig, b: BatterySample)
    requires
        s.last_ac == Some(false),
        b.is_plugged,
    ensures
        ac_actions(s, c, b) == opt_notice(c.notify_ac_dc, PowerNotice::AcOn) + seq![
            TickAction::Hook(HookEvent::AcOn),
        ],
        !charging_actions(s, c, b).contains(TickAction::Hook(HookEvent::AcOn)),
        !low_actions(s, c, b).contains(TickAction::Hook(HookEvent::AcOn)),
        !slow_actions(s, c, b).contains(TickAction::Hook(HookEvent::AcOn)),
        !charging_actions(s, c, b).contains(TickAction::Notify(PowerNotice::AcOn)),
        !low_actions(s, c, b).contains(TickAction::Notify(PowerNotice::AcOn)),
        !slow_actions(s, c, b).contains(TickAction::Notify(PowerNotice::AcOn)),
        ac_actions(state_after(s, b), c, b).len() == 0,
{
    let h = TickAction::Hook(HookEvent::AcOn);
    let n = TickAction::Notify(PowerNotice::AcOn);
    let ch = charging_actions(s, c, b);
    let lo = low_actions(s, c, b);
    let sl = slow_actions(s, c, b);
    assert forall|i: int| 0 <= i < ch.len() implies ch[i] != h && ch[i] != n by {}
    assert forall|i: int| 0 <= i < lo.len() implies lo[i] != h && lo[i] != n by {}
    assert forall|i: int| 0 <= i < sl.len() implies sl[i] != h && sl[i] != n by {}
}

} // verus!
