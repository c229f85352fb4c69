use micontrol_hw::screen_cast::{
    close_panel_args, connect_panel_args, list_cast_devices, start_casting, stop_casting,
};

#[test]
fn test_list_cast_devices_returns_ok() {
    let result = list_cast_devices(&vec![]);
    assert!(result.is_ok());
}

#[test]
fn test_stop_casting_returns_ok() {
    let result = stop_casting(false);
    assert!(result.is_ok());
    let r = stop_casting(true).unwrap();
    assert!(r.success);
    assert_eq!(r.message, "Casting stopped");
}

#[test]
fn unnamed_receivers_are_dropped() {
    let found = vec![
        ("TV".to_string(), "id1".to_string()),
        ("".to_string(), "id2".to_string()),
        ("Projector".to_string(), "id3".to_string()),
    ];
    let d = list_cast_devices(&found).unwrap();
    assert_eq!(d.len(), 2);
    assert_eq!((d[1].name.as_str(), d[1].id.as_str()), ("Projector", "id3"));
    assert_eq!(d[0].device_type, "miracast");
}

#[test]
fn start_results() {
    let r = start_casting(true, "TV", true).unwrap();
    assert!(r.success);
    assert_eq!(r.message, "Connect panel opened for TV. Select your device to start casting.");
    let r = start_casting(true, "TV", false).unwrap();
    assert_eq!((r.success, r.message.as_str()), (false, "Failed to open Connect panel."));
    let r = start_casting(false, "TV", true).unwrap();
    assert_eq!(r.message, "Screen casting only available on Windows");
    assert_eq!(connect_panel_args()[2], "ms-settings-connectabledevices:project");
    assert_eq!(close_panel_args()[4], "SystemSettings.exe");
}
