use micontrol_hw::os_turbo::{
    get_os_turbo, is_throttle_target, persisted_value, plan_guid, plan_name, plan_of_guid,
    powercfg_args, set_os_turbo, throttle_candidates, turbo_plan, PowerPlan,
};

#[test]
fn plans_and_guids() {
    assert_eq!(plan_guid(PowerPlan::HighPerformance), 0x8c5e7fda_e8bf_4a96_9a85_a6e23a8c635c);
    assert_eq!(plan_of_guid(0x381b4222_f694_41f0_9685_ff5bb260df2e), Some(PowerPlan::Balanced));
    assert_eq!(plan_of_guid(1), None);
    assert_eq!(plan_name(PowerPlan::PowerSaver), "Best Power Efficiency");
    assert_eq!(powercfg_args(PowerPlan::Balanced), ("/setactive", "381b4222-f694-41f0-9685-ff5bb260df2e"));
    assert_eq!(turbo_plan(true), PowerPlan::HighPerformance);
}

#[test]
fn turbo_status() {
    let s = set_os_turbo(true, true, 3);
    assert!(s.enabled);
    assert_eq!((s.throttled_processes, s.power_plan.as_str()), (3, "Best Performance"));
    let s = set_os_turbo(false, true, 3);
    assert_eq!((s.throttled_processes, s.power_plan.as_str()), (0, "Balanced"));
    let s = set_os_turbo(true, false, 0);
    assert_eq!(s.power_plan, "");
    assert_eq!(persisted_value(true), 1);
    assert_eq!(persisted_value(false), 0);
}

#[test]
fn turbo_read_back() {
    let s = get_os_turbo(true, Some(1), Some("Balanced".into()));
    assert!(s.enabled);
    assert_eq!(s.power_plan, "Balanced");
    assert!(!get_os_turbo(true, Some(0), None).enabled);
    assert!(!get_os_turbo(false, Some(1), Some("x".into())).enabled);
}

#[test]
fn throttle_targets() {
    assert!(is_throttle_target("SearchIndexer.exe"));
    assert!(!is_throttle_target("searchindexer.exe"));
    let ps = vec![(10, "TiWorker.exe".to_string()), (11, "explorer.exe".to_string()), (12, "MsMpEng.exe".to_string())];
    assert_eq!(throttle_candidates(&ps), vec![10, 12]);
}
