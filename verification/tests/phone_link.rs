use micontrol_hw::errors::HardwareError;
use micontrol_hw::phone_link::{
    choose_device_name, get_phone_link_status, launch_phone_link, launch_phone_link_feature,
    launch_phone_link_pairing, open_phone_link_settings, output_names_something,
    parse_device_metadatas, trimmed_output, MetadataEntry, PhoneLinkStatus,
};

fn entry(linked: bool, ty: Option<&str>, name: &str) -> MetadataEntry {
    MetadataEntry {
        is_linked: linked,
        client_type: ty.map(|t| t.to_string()),
        display_name: name.to_string(),
    }
}

#[test]
fn test_get_status_does_not_panic() {
    let _ = get_phone_link_status(false, None, false, None, false);
    let _ = get_phone_link_status(true, Some("1.0".into()), true, Some("Xiaomi 14T".into()), true);
}

#[test]
fn status_is_default_when_not_installed() {
    let s = get_phone_link_status(false, Some("1.0".into()), true, Some("x".into()), true);
    assert_eq!(s, PhoneLinkStatus::default());
    let s = get_phone_link_status(true, Some("1.0".into()), true, Some("x".into()), false);
    assert!(s.installed && s.paired && !s.running);
    assert_eq!(s.package_version.as_deref(), Some("1.0"));
}

#[test]
fn probe_outputs() {
    assert!(output_names_something("  Microsoft.YourPhone\r\n"));
    assert!(!output_names_something(" \r\n"));
    assert_eq!(trimmed_output(" 1.2.3 \n"), Some("1.2.3".to_string()));
    assert_eq!(trimmed_output("   "), None);
}

#[test]
fn deep_links() {
    assert_eq!(launch_phone_link(true).unwrap(), vec!["/c", "start", "", "ms-phone:"]);
    assert!(matches!(launch_phone_link(false), Err(HardwareError::NotSupported(_))));
    assert_eq!(
        launch_phone_link_feature("Messages", true).unwrap(),
        vec!["/c", "start", "", "ms-phone:Messages"]
    );
    assert_eq!(
        launch_phone_link_feature("Evil&calc", true),
        Err(HardwareError::Other(
            "Unknown Phone Link feature: 'Evil&calc'. Allowed: [\"Phone\", \"Messages\", \"Photos\", \"ScreenMirror\", \"Apps\"]".into()
        ))
    );
    assert_eq!(
        open_phone_link_settings(true).unwrap(),
        vec!["/c", "start", "", "ms-settings:mobile-devices"]
    );
    assert_eq!(
        open_phone_link_settings(false),
        Err(HardwareError::NotSupported("Phone Link settings only available on Windows".into()))
    );
}

#[test]
fn pairing_links_are_restricted() {
    assert_eq!(
        launch_phone_link_pairing("ms-phone-link:pairing?pc=MiControl", true).unwrap(),
        vec!["/c", "start", "", "ms-phone-link:pairing?pc=MiControl"]
    );
    assert!(launch_phone_link_pairing("MS-PHONE:x", true).is_ok());
    assert_eq!(
        launch_phone_link_pairing("", true),
        Err(HardwareError::Other("Empty Phone Link pairing URI".into()))
    );
    assert_eq!(
        launch_phone_link_pairing("http://evil", true),
        Err(HardwareError::Other("Refusing to open non-Phone-Link URI: http://evil".into()))
    );
    assert_eq!(
        launch_phone_link_pairing("ms-phone:x", false),
        Err(HardwareError::NotSupported("Phone Link only available on Windows".into()))
    );
}

#[test]
fn parses_real_device_metadata_shape() {
    let es = vec![entry(true, Some("WEA"), "MF-PC"), entry(true, Some("LTW"), "Xiaomi 14T")];
    let (paired, name) = parse_device_metadatas(&es);
    assert!(paired);
    assert_eq!(name.as_deref(), Some("Xiaomi 14T"));
}

#[test]
fn unlinked_phone_returns_not_paired() {
    let (paired, name) = parse_device_metadatas(&vec![entry(false, Some("LTW"), "Xiaomi 14T")]);
    assert!(!paired);
    assert_eq!(name, None);
}

#[test]
fn other_linked_devices_count_until_the_phone() {
    let (paired, name) = parse_device_metadatas(&vec![entry(true, Some("XYZ"), "tablet")]);
    assert!(paired);
    assert_eq!(name, None);
    let (paired, _) =
        parse_device_metadatas(&vec![entry(true, Some("XYZ"), "t"), entry(false, Some("LTW"), "p")]);
    assert!(paired);
    let (paired, _) = parse_device_metadatas(&vec![entry(true, None, "t")]);
    assert!(!paired);
}

#[test]
fn device_name_fallbacks() {
    assert_eq!(choose_device_name(Some("A".into()), &vec!["B".into()]).as_deref(), Some("A"));
    assert_eq!(choose_device_name(Some("".into()), &vec!["".into(), "B".into()]).as_deref(), Some("B"));
    assert_eq!(choose_device_name(None, &vec![]), None);
}
