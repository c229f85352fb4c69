use micontrol_hw::syncthing::{
    base_url, events_url, folder_url, get_status, system_status_url, SyncthingConfig,
    SyncthingFolder, SyncthingSystemInfo,
};

#[test]
fn base_url_normalizes_plain_addr() {
    let cfg = SyncthingConfig { address: "127.0.0.1:8384".into(), api_key: String::new() };
    assert_eq!(base_url(&cfg), "http://127.0.0.1:8384");
}

#[test]
fn base_url_normalizes_with_scheme_and_slash() {
    let cfg = SyncthingConfig { address: "http://localhost:8384/".into(), api_key: "k".into() };
    assert_eq!(base_url(&cfg), "http://localhost:8384");
    assert!(!base_url(&cfg).ends_with('/'));
}

#[test]
fn base_url_empty_uses_default() {
    let cfg = SyncthingConfig::default();
    assert_eq!(base_url(&cfg), "http://127.0.0.1:8384");
    let blank = SyncthingConfig { address: "   ".into(), api_key: String::new() };
    assert_eq!(base_url(&blank), "http://127.0.0.1:8384");
}

#[test]
fn base_url_keeps_https() {
    let cfg = SyncthingConfig { address: "https://syncthing.example:8443".into(), api_key: String::new() };
    assert_eq!(base_url(&cfg), "https://syncthing.example:8443");
}

#[test]
fn endpoint_urls() {
    let cfg = SyncthingConfig { address: " host:1 ".into(), api_key: String::new() };
    assert_eq!(system_status_url(&cfg), "http://host:1/rest/system/status");
    assert_eq!(folder_url(&cfg, "abc"), "http://host:1/rest/config/folders/abc");
    assert_eq!(events_url(&cfg, 12, 50), "http://host:1/rest/events?since=12&limit=50&timeout=0");
}

#[test]
fn status_from_answers() {
    let cfg = SyncthingConfig::default();
    let sys = SyncthingSystemInfo {
        my_id: "ID".into(),
        version: "v1".into(),
        uptime: 5,
        connection_service_status: None,
    };
    let f = SyncthingFolder { id: "a".into(), label: String::new(), path: String::new(), paused: false, type_: None };
    let ok = get_status(&cfg, Ok(sys.clone()), Ok(vec![f.clone()]));
    assert!(ok.reachable && ok.version.as_deref() == Some("v1") && ok.folders.len() == 1);
    let down = get_status(&cfg, Ok(sys), Err("syncthing folders: HTTP 403".into()));
    assert!(!down.reachable && down.error.as_deref() == Some("syncthing folders: HTTP 403"));
    assert!(down.folders.is_empty());
}
