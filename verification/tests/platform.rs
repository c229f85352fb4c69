use micontrol_hw::performance::{
    debug_name, get_perf_debug, vhf_payload, wmi_instance_path, PerformanceMode,
};
use micontrol_hw::power_listener::{classify_message, claim_start, PowerMessage};
use micontrol_hw::startup::{autostart_command, get_autostart, STARTUP_REG_KEY};

#[test]
fn perf_debug_off_windows() {
    let d = get_perf_debug(false, Some(PerformanceMode::Turbo), None, None, None, None);
    assert_eq!(d.hq_wmi_test_ret, "not Windows");
    assert_eq!(d.registry_mode, "n/a");
    assert!(!d.hq_wmi_works);
}

#[test]
fn perf_debug_on_windows() {
    let d = get_perf_debug(
        true,
        Some(PerformanceMode::OverdriveHigh),
        None,
        Some("\\\\?\\hid#vhf".into()),
        Some("ACPI\\PNP0C14\\0_0".into()),
        Some(Ok("SUCCESS".into())),
    );
    assert_eq!(d.registry_mode, "OverdriveHigh");
    assert_eq!(d.overlay_mode, "unknown");
    assert!(d.hq_wmi_works);
    assert_eq!(d.hq_wmi_test_ret, "SUCCESS");
    let d = get_perf_debug(true, None, None, None, None, Some(Err("GetMethod".into())));
    assert_eq!(d.hq_wmi_test_ret, "ERROR: GetMethod");
    assert!(!d.hq_wmi_works);
    let d = get_perf_debug(true, None, None, None, None, None);
    assert_eq!(d.hq_wmi_test_ret, "");
    assert_eq!(debug_name(PerformanceMode::SmartAcceleration), "SmartAcceleration");
}

#[test]
fn wmi_paths_escape_backslashes() {
    assert_eq!(
        wmi_instance_path("ACPI\\PNP0C14\\0_0"),
        "HQWmiCommonInterface.InstanceName=\"ACPI\\\\PNP0C14\\\\0_0\""
    );
}

#[test]
fn vhf_payload_is_little_endian() {
    assert_eq!(vhf_payload(PerformanceMode::SmartAcceleration), [14, 0, 0, 0]);
    assert_eq!(vhf_payload(PerformanceMode::Silence), [0, 0, 0, 0]);
}

#[test]
fn autostart_entry() {
    assert_eq!(autostart_command("C:\\Program Files\\MiControl\\mi.exe"), "\"C:\\Program Files\\MiControl\\mi.exe\" --minimized");
    assert!(get_autostart(true, true));
    assert!(!get_autostart(false, true));
    assert_eq!(STARTUP_REG_KEY, "SOFTWARE\\Microsoft\\Windows\\CurrentVersion\\Run");
}

#[test]
fn power_broadcasts() {
    assert_eq!(classify_message(0x0218, 7), PowerMessage::Resume);
    assert_eq!(classify_message(0x0218, 18), PowerMessage::Resume);
    assert_eq!(classify_message(0x0218, 4), PowerMessage::Suspend);
    assert_eq!(classify_message(0x0218, 10), PowerMessage::OtherBroadcast);
    assert_eq!(classify_message(0x0002, 0), PowerMessage::Quit);
    assert_eq!(classify_message(0x0010, 0), PowerMessage::Default);
    let mut running = false;
    assert!(!claim_start(&mut running));
    assert!(claim_start(&mut running));
}
