use micontrol_hw::errors::HardwareError;
use micontrol_hw::sys_opt::{
    appx_deprovision_script, appx_group, appx_reinstall_script, appx_remove_script, appx_targets,
    batch_outcome, ceip_tasks, dword_tweaks, dword_value, get_status, is_protected_appx,
    plan_tweak, policy_writes, prev_key, reg_add_dword_args, reg_exe_runs, reports_missing_task,
    restore_all, risk_tier, service_control_args, service_key, state_key, task_toggle_args,
    reg_query_dword, telemetry_level, telemetry_restore_value, tweaks, unused_service_start,
    unused_services, TweakAction,
};

#[test]
fn tweak_list_order_and_size() {
    let t = tweaks();
    assert_eq!(t.len(), 22);
    assert_eq!(t[0].id, "telemetry_level");
    assert_eq!(t[0].impact, 5);
    assert_eq!(t[21].id, "red_cortana_relics");
    assert_eq!(t[12].title, "appxBingGames");
}

#[test]
fn risk_tiers() {
    assert_eq!(risk_tier("red_copilot"), "red");
    assert_eq!(risk_tier("red_widgets"), "red");
    assert_eq!(risk_tier("appx_xbox"), "yellow");
    assert_eq!(risk_tier("diagtrack_service"), "yellow");
    assert_eq!(risk_tier("telemetry_level"), "green");
    assert_eq!(risk_tier("anything"), "green");
}

#[test]
fn plan_dispatches_known_ids() {
    assert_eq!(plan_tweak("telemetry_level", true), Ok(TweakAction::Telemetry));
    assert_eq!(plan_tweak("web_search_start", true), Ok(TweakAction::WebSearch));
    assert_eq!(plan_tweak("appx_xbox", true), Ok(TweakAction::AppxGroup));
    assert_eq!(plan_tweak("red_cortana_relics", true), Ok(TweakAction::CortanaRelics));
}

#[test]
fn plan_rejects_unknown_ids() {
    assert_eq!(
        plan_tweak("nope", true),
        Err(HardwareError::Other("Unknown SysOpt tweak: nope".into()))
    );
    assert_eq!(
        plan_tweak("appx_nope", true),
        Err(HardwareError::Other("Unknown appx group: appx_nope".into()))
    );
}

#[test]
fn plan_off_windows_is_not_supported() {
    assert_eq!(
        plan_tweak("telemetry_level", false),
        Err(HardwareError::NotSupported(
            "System optimization only available on Windows".into()
        ))
    );
}

#[test]
fn protected_packages_by_prefix_ignoring_case() {
    assert!(is_protected_appx("Microsoft.WindowsStore_22405.1401.0.0_x64__8wekyb3d8bbwe"));
    assert!(is_protected_appx("microsoft.vclibs.140.00"));
    assert!(is_protected_appx("Microsoft.XboxGamingOverlay"));
    assert!(!is_protected_appx("Microsoft.XboxApp"));
    assert!(!is_protected_appx("Microsoft.BingNews"));
}

#[test]
fn appx_groups_and_targets() {
    let g = appx_group("appx_xbox").unwrap();
    assert_eq!(g.len(), 4);
    assert!(appx_group("appx_other").is_none());
    let t = appx_targets("appx_bing_games").unwrap();
    assert_eq!(t.len(), 5);
    assert_eq!(t[0], "Microsoft.BingNews");
    for group in ["appx_bing_games", "appx_office_media", "appx_misc_tools", "appx_xbox"] {
        for p in appx_targets(group).unwrap() {
            assert!(!is_protected_appx(p));
        }
    }
    assert!(matches!(appx_targets("x"), Err(HardwareError::Other(_))));
}

#[test]
fn appx_scripts_escape_quotes() {
    assert_eq!(
        appx_remove_script("A'B"),
        "Get-AppxPackage -Name 'A''B' | Remove-AppxPackage -ErrorAction Stop"
    );
    assert_eq!(
        appx_deprovision_script("Microsoft.Todos"),
        "Get-AppxProvisionedPackage -Online | Where-Object DisplayName -eq 'Microsoft.Todos' | ForEach-Object { Remove-AppxProvisionedPackage -Online -PackageName $_.PackageName }"
    );
    assert_eq!(
        appx_reinstall_script("X"),
        "winget install --id 'X' --source msstore --accept-source-agreements --accept-package-agreements --silent"
    );
}

#[test]
fn dword_tweak_values() {
    let w = dword_tweaks(TweakAction::WebSearch);
    assert_eq!(w.len(), 2);
    assert_eq!(w[1].id, "web_search_start_bing");
    assert_eq!(dword_value(&w[0], true), 1);
    assert_eq!(dword_value(&w[0], false), 0);
    assert_eq!(dword_value(&w[1], true), 0);
    assert!(dword_tweaks(TweakAction::Telemetry).is_empty());
}

#[test]
fn policy_values() {
    let e = policy_writes(TweakAction::EdgePrelaunch, true);
    assert_eq!(e.len(), 3);
    assert_eq!((e[0].name, e[0].value), ("StartupBoostEnabled", 0));
    assert_eq!((e[2].name, e[2].value), ("AllowEdgePrelaunch", 1));
    let d = policy_writes(TweakAction::DiagTrack, false);
    assert_eq!(d[0].value, 2);
    assert_eq!(policy_writes(TweakAction::DiagTrack, true)[0].value, 4);
    assert_eq!(policy_writes(TweakAction::DeliveryOptimization, true)[0].value, 0);
    assert!(policy_writes(TweakAction::Widgets, true).is_empty());
}

#[test]
fn telemetry_values() {
    assert_eq!(telemetry_level(true), 1);
    assert_eq!(telemetry_level(false), 3);
    assert_eq!(telemetry_restore_value(Some(3)), 3);
    assert_eq!(telemetry_restore_value(None), 1);
}

#[test]
fn services_and_tasks() {
    assert_eq!(unused_services().len(), 5);
    assert_eq!(ceip_tasks().len(), 8);
    assert_eq!(service_key("wisvc"), "SYSTEM\\CurrentControlSet\\Services\\wisvc");
    assert_eq!(unused_service_start(true), 4);
    assert_eq!(unused_service_start(false), 3);
    assert_eq!(task_toggle_args("\\T", true), vec!["/Change", "/DISABLE", "/TN", "\\T"]);
    assert_eq!(service_control_args("DiagTrack", false), vec!["start", "DiagTrack"]);
}

#[test]
fn reg_exe_command_lines() {
    assert_eq!(
        reg_add_dword_args("HKCU\\K", "V", 1),
        vec!["add", "HKCU\\K", "/v", "V", "/t", "REG_DWORD", "/d", "1", "/f"]
    );
    let c = reg_exe_runs(TweakAction::CortanaRelics, true);
    assert_eq!(c.len(), 1);
    assert_eq!(c[0][3], "AllowCortana");
    assert_eq!(c[0][7], "0");
    let w = reg_exe_runs(TweakAction::Widgets, true);
    assert_eq!(w.len(), 2);
    assert_eq!(w[1][3], "AllowNewsAndInterests");
    assert_eq!(reg_exe_runs(TweakAction::Widgets, false)[0][7], "1");
}

#[test]
fn batch_fails_only_when_all_fail() {
    let f = vec!["a: x".to_string(), "b: y".to_string()];
    assert_eq!(
        batch_outcome(&f, 2, "service"),
        Err(HardwareError::Other("All service changes failed: a: x; b: y".into()))
    );
    assert_eq!(batch_outcome(&f, 5, "service"), Ok(()));
    assert_eq!(batch_outcome(&vec![], 8, "CEIP task"), Ok(()));
}

#[test]
fn missing_task_messages() {
    assert!(reports_missing_task("ERROR: The system cannot find the file. Does Not Exist"));
    assert!(reports_missing_task("ERRO: A tarefa NÃO EXISTE"));
    assert!(!reports_missing_task("ERROR: Access is denied."));
}

#[test]
fn state_keys() {
    assert_eq!(state_key("ceip_tasks"), "SOFTWARE\\MiControl\\SysOpt\\ceip_tasks");
    assert_eq!(prev_key("x"), "SOFTWARE\\MiControl\\SysOpt\\x\\Prev");
}

#[test]
fn status_and_restore_follow_the_recorded_flags() {
    let mut applied = vec![false; 22];
    applied[1] = true;
    applied[20] = true;
    let st = get_status(&applied).unwrap();
    assert_eq!(st.len(), 22);
    assert!(st[1].applied && st[20].applied && !st[0].applied);
    assert_eq!(st[20].tier, "red");
    assert_eq!(st[1].tier, "yellow");
    assert_eq!(restore_all(&applied), vec!["diagtrack_service", "red_widgets"]);
    let none = get_status(&vec![]).unwrap();
    assert!(none.iter().all(|s| !s.applied));
    assert!(restore_all(&vec![]).is_empty());
}

#[test]
fn reg_query_output_is_read_back() {
    let out = "\r\nHKEY_LOCAL_MACHINE\\SOFTWARE\\Policies\\Microsoft\\Windows\\DataCollection\r\n    AllowTelemetry    REG_DWORD    0x3\r\n\r\n";
    assert_eq!(reg_query_dword(out, "AllowTelemetry"), Some(3));
    assert_eq!(reg_query_dword("    Start    REG_DWORD    0xFFFFFFFF\r\n", "Start"), Some(u32::MAX));
    assert_eq!(reg_query_dword("    Start    REG_SZ    0x4\r\n", "Start"), None);
    assert_eq!(reg_query_dword("    Start    REG_DWORD    0x1ffffffff\r\n", "Start"), None);
    assert_eq!(reg_query_dword("    Other    REG_DWORD    0x1\r\n", "Start"), None);
    assert_eq!(reg_query_dword("ERROR: not found", "Start"), None);
}
