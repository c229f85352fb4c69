use micontrol_hw::iot_events::{
    parse_mode, scan_now, tick, BatterySample, HookEvent, IotEventsConfig, IotEventsRegistry,
    ListenerState, PowerNotice, TickAction,
};
use micontrol_hw::performance::PerformanceMode;
use micontrol_hw::scenario_rules::{
    apply_event, apply_lid_action, desired_mode, LidAction, ScenarioRulesConfig,
};

#[test]
fn parse_mode_maps_all_names() {
    assert!(matches!(parse_mode("Quiet"), Some(PerformanceMode::Silence)));
    assert!(matches!(parse_mode("balanced"), Some(PerformanceMode::Balance)));
    assert!(matches!(parse_mode("LONG_BATTERY"), Some(PerformanceMode::LongBattery)));
    assert!(parse_mode("nonsense").is_none());
    assert!(parse_mode("").is_none());
}

#[test]
fn iot_events_default_config_is_safe() {
    let cfg = IotEventsConfig::default();
    assert!(cfg.enabled);
    assert!(cfg.notify_ac_dc);
    assert!(!cfg.notify_charging);
    assert_eq!(cfg.low_battery_pct, 20);
    assert!(cfg.on_ac_mode.is_none());
}

#[test]
fn load_returns_defaults_when_registry_missing() {
    let cfg = IotEventsConfig::load(&None);
    assert!(cfg.enabled);
}

#[test]
fn load_and_save_registry_values() {
    let reg = IotEventsRegistry {
        enabled: Some(0),
        notify_ac_dc: None,
        notify_charging: Some(1),
        notify_low_battery: None,
        low_battery_pct: Some(150),
        on_ac_mode: Some(" Turbo ".into()),
        on_battery_mode: Some(String::new()),
    };
    let cfg = IotEventsConfig::load(&Some(reg));
    assert!(!cfg.enabled && cfg.notify_ac_dc && cfg.notify_charging);
    assert_eq!(cfg.low_battery_pct, 49);
    assert_eq!(cfg.on_ac_mode, Some(PerformanceMode::Turbo));
    assert_eq!(cfg.on_battery_mode, None);
    let saved = cfg.save();
    assert_eq!(saved.on_ac_mode.as_deref(), Some("Turbo"));
    assert_eq!(saved.on_battery_mode.as_deref(), Some(""));
    assert_eq!(IotEventsConfig::load(&Some(saved)), cfg);
}

fn sample(plugged: bool, charging: bool, level: u8, mw: Option<i32>) -> BatterySample {
    BatterySample { is_plugged: plugged, is_charging: charging, level, ac_input_power_mw: mw }
}

#[test]
fn tick_reports_transitions() {
    let cfg = IotEventsConfig::default();
    let mut st = ListenerState::new();
    assert!(tick(&mut st, &cfg, Some(sample(true, true, 50, None))).is_empty());
    let a = tick(&mut st, &cfg, Some(sample(false, false, 19, None)));
    assert_eq!(
        a,
        vec![
            TickAction::Notify(PowerNotice::AcOff),
            TickAction::Hook(HookEvent::AcOff),
            TickAction::Notify(PowerNotice::BatteryLow),
            TickAction::Hook(HookEvent::BatteryLow),
        ]
    );
    assert!(scan_now(&mut st, &cfg, Some(sample(false, false, 18, None))).is_empty());
    assert!(tick(&mut st, &cfg, None).is_empty());
    assert_eq!(HookEvent::AcOff.name(), "ac_off");
    assert_eq!(PowerNotice::BatteryLow.glyph(), 0xECA5);
}

#[test]
fn slow_charger_reported_once_after_six_ticks() {
    let mut cfg = IotEventsConfig::default();
    cfg.notify_charging = true;
    let mut st = ListenerState::new();
    let mut fired = 0;
    for _ in 0..10 {
        let a = tick(&mut st, &cfg, Some(sample(true, true, 50, Some(20_000))));
        fired += a.iter().filter(|x| **x == TickAction::Hook(HookEvent::SlowCharger)).count();
    }
    assert_eq!(fired, 1);
    assert_eq!(st.slow_ticks, 10);
}

#[test]
fn desired_mode_maps_ac_and_battery_events() {
    let c = ScenarioRulesConfig {
        enabled: true,
        on_ac_mode: Some(PerformanceMode::Turbo),
        on_battery_mode: Some(PerformanceMode::Balance),
        lid_action: LidAction::NoAction,
    };
    assert_eq!(desired_mode("ac_on", &c), Some(PerformanceMode::Turbo));
    assert_eq!(desired_mode("ac_off", &c), Some(PerformanceMode::Balance));
    assert_eq!(desired_mode("battery_low", &c), Some(PerformanceMode::Balance));
    assert_eq!(desired_mode("resume", &c), None);
    assert_eq!(desired_mode("", &c), None);
}

#[test]
fn disabled_rules_never_apply() {
    let c = ScenarioRulesConfig {
        enabled: false,
        on_ac_mode: Some(PerformanceMode::Turbo),
        on_battery_mode: Some(PerformanceMode::Balance),
        lid_action: LidAction::NoAction,
    };
    assert_eq!(desired_mode("ac_on", &c), Some(PerformanceMode::Turbo));
    assert_eq!(apply_event("ac_on", &c), None);
}

#[test]
fn lid_action_parse_maps_known_values() {
    assert_eq!(LidAction::parse("sleep"), LidAction::Sleep);
    assert_eq!(LidAction::parse("Suspend"), LidAction::Sleep);
    assert_eq!(LidAction::parse(""), LidAction::NoAction);
    assert_eq!(LidAction::parse("turbo"), LidAction::NoAction);
}

#[test]
fn scenario_rules_default_config_is_safe() {
    let c = ScenarioRulesConfig::default();
    assert!(c.enabled);
    assert!(c.on_ac_mode.is_none());
    assert!(c.on_battery_mode.is_none());
    assert_eq!(c.lid_action, LidAction::NoAction);
    assert!(!apply_lid_action(&c));
    let loaded = ScenarioRulesConfig::load(&IotEventsConfig::default(), &Some(" STANDBY".into()));
    assert!(apply_lid_action(&loaded));
}

use micontrol_hw::iot_watchdog::{check_once, WatchdogAction, WatchdogState};

#[test]
fn recovery_allowed_initial() {
    let mut w = WatchdogState::new();
    assert!(w.recovery_allowed(1_000));
}

#[test]
fn recovery_disallowed_within_cooldown() {
    let mut w = WatchdogState::new();
    assert!(w.recovery_allowed(1_000));
    assert!(!w.recovery_allowed(1_001));
    assert!(w.recovery_allowed(301_000));
}

#[test]
fn watchdog_checks() {
    let mut w = WatchdogState::new();
    assert_eq!(check_once(&mut w, true, 5), WatchdogAction::Healthy);
    assert_eq!(check_once(&mut w, false, 5), WatchdogAction::Recover);
    assert_eq!(check_once(&mut w, false, 6), WatchdogAction::Cooldown);
}

#[test]
fn plugging_in_fires_ac_on_once() {
    let cfg = IotEventsConfig::default();
    let mut s = ListenerState::new();
    let unplugged = BatterySample { is_plugged: false, is_charging: false, level: 50, ac_input_power_mw: None };
    let plugged = BatterySample { is_plugged: true, is_charging: true, level: 50, ac_input_power_mw: Some(90_000) };
    assert!(scan_now(&mut s, &cfg, Some(unplugged)).is_empty());
    let first = scan_now(&mut s, &cfg, Some(plugged));
    let hooks = first.iter().filter(|a| **a == TickAction::Hook(HookEvent::AcOn)).count();
    assert_eq!(hooks, 1);
    assert!(first.contains(&TickAction::Notify(PowerNotice::AcOn)));
    let second = scan_now(&mut s, &cfg, Some(plugged));
    assert!(!second.contains(&TickAction::Hook(HookEvent::AcOn)));
    let mut off = cfg;
    off.enabled = false;
    let mut s2 = ListenerState::new();
    assert!(scan_now(&mut s2, &off, Some(unplugged)).is_empty());
    assert!(scan_now(&mut s2, &off, Some(plugged)).is_empty());
}
