use micontrol_hw::taskmgr::{
    buffer_holds, engine_kind, is_pseudo_interface, parse_pid_from_instance, read_wide_string,
    read_wide_units, EngineKind,
};

#[test]
fn parse_pid_from_instance_basic() {
    assert_eq!(
        parse_pid_from_instance("pid_15744_luid_0x00000000_0x00e5c409_phys_0_eng_0_engtype_3d"),
        Some(15744)
    );
    assert_eq!(
        parse_pid_from_instance("pid_1916_luid_0x00000000_0x00012b0f_phys_0_eng_9_engtype_3d"),
        Some(1916)
    );
    assert_eq!(parse_pid_from_instance("_Total"), None);
    assert_eq!(parse_pid_from_instance(""), None);
}

#[test]
fn parse_pid_from_instance_small_pid_filtered() {
    assert_eq!(parse_pid_from_instance("pid_0_luid_x_engtype_3d"), None);
    assert_eq!(
        parse_pid_from_instance("pid_4_luid_0x00000000_0x00012b95_phys_0_eng_0_engtype_neural"),
        Some(4)
    );
}

#[test]
fn parse_pid_limits() {
    assert_eq!(parse_pid_from_instance("pid_4294967295"), Some(4294967295));
    assert_eq!(parse_pid_from_instance("pid_4294967296_x"), None);
    assert_eq!(parse_pid_from_instance("pid__1"), None);
    assert_eq!(parse_pid_from_instance("PID_12"), None);
}

#[test]
fn engine_kinds_ignore_case() {
    assert_eq!(engine_kind("pid_1_eng_0_engtype_3D"), EngineKind::Gpu);
    assert_eq!(engine_kind("pid_1_eng_0_engtype_Neural"), EngineKind::Npu);
    assert_eq!(engine_kind("pid_1_eng_0_engtype_Copy"), EngineKind::Other);
    assert_eq!(engine_kind("3d"), EngineKind::Gpu);
    assert_eq!(engine_kind("x_engtype_neural_engtype_3d"), EngineKind::Gpu);
}

#[test]
fn buffer_sizes() {
    assert!(!buffer_holds(0, 0));
    assert!(!buffer_holds(8, 1));
    assert!(buffer_holds(48, 2));
    assert!(!buffer_holds(1_000_000, 4097));
}

#[test]
fn wide_strings() {
    let mut data: Vec<u8> = Vec::new();
    for u in "Wi-Fi".encode_utf16().chain(std::iter::once(0)) {
        data.extend_from_slice(&u.to_le_bytes());
    }
    data.extend_from_slice(&[0x41, 0]);
    let (s, next) = read_wide_string(&data, 0);
    assert_eq!(s, "Wi-Fi");
    assert_eq!(next, 12);
    let (units, end) = read_wide_units(&data, next);
    assert_eq!(units, vec![0x41]);
    assert_eq!(end, 14);
}

#[test]
fn pseudo_interfaces() {
    assert!(is_pseudo_interface("isatap.{1234}"));
    assert!(is_pseudo_interface("Teredo Tunneling Pseudo-Interface"));
    assert!(is_pseudo_interface("Loopback Pseudo-Interface 1"));
    assert!(!is_pseudo_interface("Intel[R] Wi-Fi 6E AX211 160MHz"));
}

#[test]
fn wide_strings_decode_surrogates_lossily() {
    let units: [u16; 5] = [0xD83D, 0xDE00, 0x0041, 0xDC00, 0];
    let mut data: Vec<u8> = Vec::new();
    for u in units {
        data.extend_from_slice(&u.to_le_bytes());
    }
    let (s, next) = read_wide_string(&data, 0);
    assert_eq!(s, "\u{1F600}A\u{FFFD}");
    assert_eq!(next, 10);
}
