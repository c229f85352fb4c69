use micontrol_hw::security_scan::{
    custom_scan, format_registry_filetime, format_unix_secs, full_scan, get_defender_status,
    get_threat_history, parse_threat_list, quick_scan, scan_result, scan_status,
    update_signatures, DefenderRegistry, HardwareError, ScanStatus, ScanType,
};

#[test]
fn test_parse_threat_list_empty() {
    let threats = parse_threat_list("");
    assert!(threats.is_empty());
}

#[test]
fn test_parse_threat_list_with_entries() {
    let output = "Threat: Trojan:Win32/Test\nMalware: Win32/Dangerous\n";
    let threats = parse_threat_list(output);
    assert_eq!(threats.len(), 2);
    assert!(threats[0].threat_name.contains("Trojan"));
}

#[test]
fn test_scan_status_from_exit_code() {
    assert_eq!(
        match 0 {
            0 => ScanStatus::Clean,
            2 => ScanStatus::ThreatsDetected,
            _ => ScanStatus::Error,
        },
        ScanStatus::Clean
    );
    assert_eq!(scan_status(ScanType::Quick, 0), ScanStatus::Clean);
    assert_eq!(scan_status(ScanType::Full, 2), ScanStatus::ThreatsDetected);
    assert_eq!(scan_status(ScanType::Custom, 5), ScanStatus::Error);
    assert_eq!(scan_status(ScanType::SignatureUpdate, 0), ScanStatus::Updated);
}

#[test]
fn threat_list_skips_banners_and_trims() {
    let out = "MpCmdRun.exe Threat banner\r\nCopyright Virus\r\n  Virus:DOS/EICAR  \r\nnothing here\r\n";
    let t = parse_threat_list(out);
    assert_eq!(t.len(), 1);
    assert_eq!(t[0].threat_name, "Virus:DOS/EICAR");
    assert!(t[0].action_success && t[0].resources.is_empty());
    let h = get_threat_history(out);
    assert_eq!(h.total_count, 1);
}

#[test]
fn scan_commands() {
    assert_eq!(quick_scan().args, vec!["-Scan", "-ScanType", "1"]);
    assert_eq!(full_scan().args, vec!["-Scan", "-ScanType", "2"]);
    assert_eq!(update_signatures().args, vec!["-SignatureUpdate"]);
    let c = custom_scan("x", Some("C:\\x".into())).unwrap();
    assert_eq!(c.args, vec!["-Scan", "-ScanType", "3", "-File", "C:\\x"]);
    assert_eq!(
        custom_scan("nope", None).unwrap_err(),
        HardwareError::Other("Scan path does not exist: nope".into())
    );
    let r = scan_result(ScanType::Quick, Some(2), "  \n", " err \n", 9);
    assert_eq!(r.status, ScanStatus::ThreatsDetected);
    assert_eq!(r.output, "err");
    assert_eq!(scan_result(ScanType::Full, None, "ok", "", 1).exit_code, -1);
}

#[test]
fn unix_seconds_format_as_dates() {
    assert_eq!(format_unix_secs(0).unwrap(), "1970-01-01 00:00:00");
    assert_eq!(format_unix_secs(951_782_400).unwrap(), "2000-02-29 00:00:00");
    assert_eq!(format_unix_secs(1_700_000_000).unwrap(), "2023-11-14 22:13:20");
    assert_eq!(format_unix_secs(-1).unwrap(), "1969-12-31 23:59:59");
    assert_eq!(format_unix_secs(-62_167_219_200 - 86_400).unwrap(), "-001-12-31 00:00:00");
}

#[test]
fn registry_filetime_values() {
    assert_eq!(format_registry_filetime("2024-01-02".into()), "2024-01-02");
    let raw = String::from_utf8(vec![0, 0, 0, 0, 0, 0, 0, 2]).unwrap();
    assert_eq!(format_registry_filetime(raw), "2057-09-06 23:40:07");
    assert_eq!(format_registry_filetime("abcdefgh".into()), "25440-09-27 01:20:20");
    assert_eq!(format_registry_filetime("abc".into()), "abc");
}

#[test]
fn defender_status_fallback() {
    let reg = DefenderRegistry {
        disable_realtime_monitoring: Some(true),
        disable_antivirus: None,
        disable_antispyware: Some(false),
        engine_version: Some("1.1".into()),
        product_version: None,
        signatures_last_updated: Some("2024-05-01".into()),
        av_signature_version: None,
        last_quick_scan_end_time: None,
    };
    let st = get_defender_status(true, None, reg.clone(), true).unwrap();
    assert!(!st.real_time_protection && st.antivirus_enabled && st.antispyware_enabled && st.enabled);
    assert_eq!(st.definitions_updated.as_deref(), Some("2024-05-01"));
    assert!(matches!(get_defender_status(false, None, reg, true), Err(HardwareError::NotSupported(_))));
}
