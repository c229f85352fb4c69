use micontrol_hw::performance::{
    get_performance_mode, set_performance_mode, set_windows_power_overlay, PerformanceChannel,
    PerformanceMode,
};

#[test]
fn hw_values_are_correct() {
    assert_eq!(PerformanceMode::Silence.to_hw_value(), 0);
    assert_eq!(PerformanceMode::Balance.to_hw_value(), 1);
    assert_eq!(PerformanceMode::Turbo.to_hw_value(), 2);
    assert_eq!(PerformanceMode::Decepticon.to_hw_value(), 3);
    assert_eq!(PerformanceMode::Overdrive.to_hw_value(), 4);
    assert_eq!(PerformanceMode::OverdriveHigh.to_hw_value(), 5);
    assert_eq!(PerformanceMode::OverdriveMax.to_hw_value(), 6);
    assert_eq!(PerformanceMode::SmartAdaptive.to_hw_value(), 9);
    assert_eq!(PerformanceMode::Smart.to_hw_value(), 10);
    assert_eq!(PerformanceMode::LongBattery.to_hw_value(), 11);
    assert_eq!(PerformanceMode::SmartAcceleration.to_hw_value(), 14);
}

#[test]
fn performance_mode_hw_values() {
    assert_eq!(PerformanceMode::Silence.to_hw_value(), 0);
    assert_eq!(PerformanceMode::Balance.to_hw_value(), 1);
    assert_eq!(PerformanceMode::Turbo.to_hw_value(), 2);
    assert_eq!(PerformanceMode::Decepticon.to_hw_value(), 3);
    assert_eq!(PerformanceMode::Smart.to_hw_value(), 10);
    assert_eq!(PerformanceMode::LongBattery.to_hw_value(), 11);
    assert_eq!(PerformanceMode::SmartAcceleration.to_hw_value(), 14);
}

#[test]
fn set_performance_mode_registry_fallback() {
    let result = set_performance_mode(PerformanceMode::Balance, PerformanceChannel::RegistryOnly);
    assert!(result.success);
    assert_eq!(result.method, "registry+overlay");
    assert_eq!(result.mode, PerformanceMode::Balance);
}

#[test]
fn mode_names_round_trip() {
    for m in [
        PerformanceMode::Silence,
        PerformanceMode::Balance,
        PerformanceMode::Turbo,
        PerformanceMode::Smart,
        PerformanceMode::LongBattery,
        PerformanceMode::SmartAcceleration,
        PerformanceMode::Overdrive,
        PerformanceMode::OverdriveHigh,
        PerformanceMode::OverdriveMax,
        PerformanceMode::SmartAdaptive,
    ] {
        assert_eq!(PerformanceMode::from_name(m.name()), Some(m));
        assert_eq!(PerformanceMode::from_hw_value(m.to_hw_value()), Some(m));
    }
    assert_eq!(PerformanceMode::SmartAcceleration.name(), "smart_acceleration");
    assert_eq!(PerformanceMode::from_name("warp"), None);
    assert_eq!(PerformanceMode::from_hw_value(7), None);
}

#[test]
fn stored_mode_wins_over_overlay() {
    assert_eq!(get_performance_mode(Some(0), Some("{961CC777-2547}")), PerformanceMode::Silence);
    assert_eq!(get_performance_mode(Some(99), Some("{961CC777-2547}")), PerformanceMode::LongBattery);
    assert_eq!(get_performance_mode(None, Some("ded574b5-45a0")), PerformanceMode::Turbo);
    assert_eq!(get_performance_mode(None, None), PerformanceMode::Balance);
    assert_eq!(set_windows_power_overlay(PerformanceMode::OverdriveMax), "ded574b5-45a0-4f42-8737-46345c09c238");
    assert_eq!(set_windows_power_overlay(PerformanceMode::Smart), "3af9b8d9-7c97-431d-ad78-34a8bfea439f");
}
