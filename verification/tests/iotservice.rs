use micontrol_hw::iotservice::{
    check_rate_limit, decrypt_with_key, encrypt_with_key, get_device_info, get_model, get_wifi_by_index, get_wifi_list,
    is_known_msg_type, notify_ec_event, notify_event, on_response_header, reset_device,
    send_laptop_status, set_device_status, validate_response_header, write_wifi_item,
    IotEvent, IotWifiList, IpcError, IpcRequest, IpcWireHeader, LaptopStatus, PowerEvent,
    PowerEventType, RequestSeq, ResponseStep, WiFiItem, WiFiItemInfo, CONNECT_WIFI,
    DELETE_WIFI_ITEM, EC_EVENT, EMPTY_WIFI_ITEMS, GET_BIND_STATUS, GET_DEVICE_ID,
    GET_DEVICE_STATUS, GET_FW_VERSION, GET_MODEL, GET_WIFI_BY_INDEX, IPC_HEADER_SIZE,
    POWER_EVENT, READ_WIFI_COUNT, READ_WIFI_STATUS, RESET_DEVICE, SEND_LAPTOP_STATUS,
    SET_CHARGING_LIMIT, SET_DEVICE_STATUS, WRITE_WIFI_ITEM,
};

#[test]
fn test_ipc_header_size() {
    assert_eq!(std::mem::size_of::<IpcWireHeader>(), IPC_HEADER_SIZE);
    assert_eq!(IpcWireHeader::new(1, 2, 3, 4).as_bytes().len(), IPC_HEADER_SIZE);
}

#[test]
fn test_header_default() {
    let h = IpcWireHeader::new(1, 2, 0x1001, 0);
    assert_eq!(h.src_id, 1);
    assert_eq!(h.dst_id, 2);
    assert_eq!(h.msg_type, 0x1001);
    assert_eq!(h.payload_len, 0);
}

#[test]
fn test_header_with_payload() {
    let h = IpcWireHeader::new(1, 2, 0x4001, 256);
    assert_eq!(h.payload_len, 256);
}

#[test]
fn test_header_bytes_roundtrip() {
    let h = IpcWireHeader::new(0xAA, 0xBB, 0xDEADBEEF, 42);
    let bytes = h.as_bytes();
    let parsed = IpcWireHeader::from_bytes(&bytes).unwrap();
    assert_eq!(parsed.src_id, 0xAA);
    assert_eq!(parsed.dst_id, 0xBB);
    assert_eq!(parsed.msg_type, 0xDEADBEEF);
    assert_eq!(parsed.payload_len, 42);
}

#[test]
fn header_bytes_are_little_endian() {
    let h = IpcWireHeader::new(0x0102, 0x0304, 0x05060708, 0x090A0B0C);
    assert_eq!(h.as_bytes(), vec![2, 1, 4, 3, 8, 7, 6, 5, 0x0C, 0x0B, 0x0A, 0x09]);
    assert_eq!(IpcWireHeader::from_bytes(&[0u8; 11]), None);
}

#[test]
fn test_rate_limit_allows_under_limit() {
    let mut times: Vec<u64> = Vec::new();
    let _ = check_rate_limit(&mut times, 5_000);
}

#[test]
fn rate_limit_caps_writes_per_second() {
    let mut times: Vec<u64> = Vec::new();
    for i in 0..100u64 {
        assert!(check_rate_limit(&mut times, 10_000 + i));
    }
    assert!(!check_rate_limit(&mut times, 10_500));
    assert_eq!(times.len(), 100);
    assert!(check_rate_limit(&mut times, 11_000));
    assert_eq!(times.len(), 100);
}

#[test]
fn test_laptop_status_values() {
    assert_eq!(LaptopStatus::WinReady.to_hw_value(), 4);
    assert_eq!(LaptopStatus::Suspending.to_hw_value(), 6);
    assert_eq!(LaptopStatus::Shutting.to_hw_value(), 8);
    assert_eq!(LaptopStatus::Shutting.as_str(), "IOT_SHUTING");
}

#[test]
fn test_charging_validation_only_values() {
    const VALID: &[u8] = &[40, 50, 60, 70, 80, 100];
    for &v in VALID {
        assert!(v >= 40 && v <= 100);
    }
    assert!(!VALID.contains(&99));
}

#[test]
fn test_is_known_msg_type_returns_true_for_0x5001() {
    assert!(is_known_msg_type(EC_EVENT));
}

#[test]
fn test_is_known_msg_type_returns_true_for_0x5002() {
    assert!(is_known_msg_type(POWER_EVENT));
}

#[test]
fn test_is_known_msg_type_returns_true_for_all_confirmed_types() {
    let confirmed: Vec<u32> = vec![
        GET_MODEL,
        GET_FW_VERSION,
        GET_BIND_STATUS,
        GET_DEVICE_ID,
        GET_DEVICE_STATUS,
        SET_DEVICE_STATUS,
        RESET_DEVICE,
        SET_CHARGING_LIMIT,
        SEND_LAPTOP_STATUS,
        WRITE_WIFI_ITEM,
        DELETE_WIFI_ITEM,
        GET_WIFI_BY_INDEX,
        READ_WIFI_COUNT,
        READ_WIFI_STATUS,
        EMPTY_WIFI_ITEMS,
        CONNECT_WIFI,
    ];
    for t in confirmed {
        assert!(is_known_msg_type(t), "Expected confirmed type 0x{t:04X} to be known");
    }
}

#[test]
fn test_is_known_msg_type_returns_false_for_unknown_type() {
    assert!(!is_known_msg_type(0x9999));
}

#[test]
fn test_is_known_msg_type_returns_false_for_zero() {
    assert!(!is_known_msg_type(0));
}

#[test]
fn test_is_known_msg_type_returns_false_for_max_u32() {
    assert!(!is_known_msg_type(u32::MAX));
}

#[test]
fn test_validate_response_header_ok() {
    let h = IpcWireHeader::new(2, 1, GET_MODEL, 10);
    assert!(validate_response_header(&h, 2, 1).is_ok());
}

#[test]
fn test_validate_response_header_wrong_src() {
    let h = IpcWireHeader::new(3, 1, GET_MODEL, 10);
    let err = validate_response_header(&h, 2, 1).unwrap_err();
    let msg = err.message();
    assert!(msg.contains("src_id mismatch"), "Got: {msg}");
    assert_eq!(msg, "Response src_id mismatch: expected 0x0002, got 0x0003");
}

#[test]
fn test_validate_response_header_wrong_dst() {
    let h = IpcWireHeader::new(2, 99, GET_MODEL, 10);
    let err = validate_response_header(&h, 2, 1).unwrap_err();
    let msg = err.message();
    assert!(msg.contains("dst_id mismatch"), "Got: {msg}");
}

#[test]
fn test_request_seq_increments() {
    let mut seq = RequestSeq::new();
    let before = seq.next;
    let s1 = seq.fetch_next();
    assert_eq!(s1, before);
    let s2 = seq.fetch_next();
    assert_eq!(s2, before + 1);
}

#[test]
fn test_iot_wifi_list_default() {
    let list = IotWifiList::default();
    assert_eq!(list.count, 0, "count should be 0 by default");
    assert!(list.networks.is_empty(), "networks should be empty by default");
    assert!(list.status.is_none(), "status should be None by default");
}

#[test]
fn reply_header_steps() {
    assert_eq!(on_response_header(None, 2), ResponseStep::Empty);
    let unknown = IpcWireHeader::new(2, 1, 0x9999, 10);
    assert_eq!(on_response_header(Some(unknown), 2), ResponseStep::Empty);
    let ok = IpcWireHeader::new(2, 1, GET_MODEL, 10);
    assert_eq!(on_response_header(Some(ok), 2), ResponseStep::ReadPayload(10));
    let big = IpcWireHeader::new(2, 1, GET_MODEL, 0x10001);
    assert_eq!(
        on_response_header(Some(big), 2),
        ResponseStep::Fail(IpcError::PayloadTooLarge { len: 0x10001 })
    );
    let empty = IpcWireHeader::new(2, 1, GET_MODEL, 0);
    assert_eq!(on_response_header(Some(empty), 2), ResponseStep::Empty);
    let wrong = IpcWireHeader::new(3, 1, GET_MODEL, 4);
    assert_eq!(
        on_response_header(Some(wrong), 2),
        ResponseStep::Fail(IpcError::SrcMismatch { expected: 2, got: 3 })
    );
    assert_eq!(
        IpcError::PayloadTooLarge { len: 70000 }.message(),
        "Response payload too large: 70000 bytes"
    );
}

fn body(r: &IpcRequest) -> String {
    String::from_utf8(r.payload.clone()).unwrap()
}

#[test]
fn request_bodies_match_the_protocol() {
    let q = get_model();
    assert_eq!((q.dst_id, q.msg_type, q.payload.len()), (2, GET_MODEL, 0));
    assert_eq!(&q.frame()[..], &[1, 0, 2, 0, 0x01, 0x10, 0, 0, 0, 0, 0, 0][..]);
    assert_eq!(body(&send_laptop_status(LaptopStatus::Suspending)), r#"{"LaptopStatus":6}"#);
    assert_eq!(body(&reset_device()), r#"{"reset":true}"#);
    assert_eq!(body(&set_device_status("on\"x").unwrap()), r#"{"status":"on\"x"}"#);
    assert_eq!(body(&get_wifi_by_index(3)), r#"{"index":3}"#);
    assert_eq!(body(&notify_ec_event(7, 12)), r#"{"event_func":7,"event_value":12}"#);
    let item = WiFiItem {
        ssid: "home".into(),
        password: Some("plain".into()),
        enable: true,
        uid: None,
        fw_version: Some("1.2".into()),
    };
    let key = b"0123456789abcdef0123456789abcdef";
    let nonce = "000102030405060708090a0b0c0d0e0f";
    let w = write_wifi_item(&item, key, nonce).unwrap();
    let enc = encrypt_with_key("plain", key, nonce).unwrap();
    assert_eq!(
        body(&w),
        format!(r#"{{"ssid":"home","password":"{enc}","enable":true,"fw_version":"1.2"}}"#)
    );
    let open = WiFiItem { password: None, uid: Some(9), ..item.clone() };
    assert_eq!(
        body(&write_wifi_item(&open, key, nonce).unwrap()),
        r#"{"ssid":"home","enable":true,"uid":9,"fw_version":"1.2"}"#
    );
    assert!(write_wifi_item(&item, key, "zz").unwrap_err().starts_with("Failed to encrypt WiFi password: "));
    let ev = IotEvent::Power {
        event: PowerEvent {
            event_type: PowerEventType::AcDcSourceChange,
            ac_online: Some(true),
            battery_percent: Some(80),
            monitor_on: None,
            battery_saver_on: None,
            power_scheme: None,
            away_mode: None,
            lid_open: None,
            display_on: None,
            user_present: None,
        },
    };
    let p = notify_event(&ev).unwrap();
    assert_eq!(p.msg_type, POWER_EVENT);
    assert_eq!(body(&p), r#"{"event_type":"ac_dc_source_change","ac_online":true,"battery_percent":80}"#);
    let l = notify_event(&IotEvent::LaptopStatus { status: LaptopStatus::WinReady }).unwrap();
    assert_eq!(body(&l), r#"{"LaptopStatus":4}"#);
}

#[test]
fn wifi_list_keeps_successful_replies_in_order() {
    let a = WiFiItemInfo { ssid: "a".into(), connected: true, enabled: true };
    let b = WiFiItemInfo { ssid: "b".into(), connected: false, enabled: true };
    let l = get_wifi_list(
        Ok(3),
        Err("pipe".into()),
        vec![Ok(a.clone()), Err("index 1".into()), Ok(b.clone())],
    );
    assert_eq!(l.count, 3);
    assert!(l.status.is_none());
    assert_eq!(l.networks, vec![a.clone(), b.clone()]);
    let short = get_wifi_list(Ok(1), Err("pipe".into()), vec![Ok(a.clone()), Ok(b)]);
    assert_eq!(short.networks, vec![a]);
    assert_eq!(get_wifi_list(Err("pipe".into()), Err("pipe".into()), vec![]).count, 0);
}

#[test]
fn device_info_keeps_each_reply_on_its_own() {
    let d = get_device_info(
        true,
        Ok("Mi NoteBook".into()),
        Err("timeout".into()),
        Err("timeout".into()),
        Ok(42),
        Err("timeout".into()),
        Err("timeout".into()),
        Ok(2),
    );
    assert!(d.pipe_available);
    assert_eq!(d.model.as_deref(), Some("Mi NoteBook"));
    assert!(d.fw_version.is_none() && d.bind_status.is_none() && d.device_status.is_none());
    assert_eq!(d.device_id, Some(42));
    assert!(d.wifi_status.is_none());
    assert_eq!(d.wifi_network_count, Some(2));
}

#[test]
fn encrypt_with_key_formats_nonce_and_hex() {
    let key = b"0123456789abcdef0123456789abcdef";
    let nonce = "000102030405060708090a0b0c0d0e0f";
    let out = encrypt_with_key("secret", key, nonce).unwrap();
    let (n, c) = out.split_once(':').unwrap();
    assert_eq!(n, nonce);
    assert_eq!(c.len(), 2 * (6 + 16));
    assert!(c.chars().all(|ch| ch.is_ascii_hexdigit() && !ch.is_ascii_uppercase()));
    assert_eq!(encrypt_with_key("secret", key, nonce).unwrap(), out);
    assert!(encrypt_with_key("secret", key, "zz").unwrap_err().starts_with("Invalid nonce: "));
    assert_eq!(
        encrypt_with_key("secret", key, "0011").unwrap_err(),
        "AES-GCM nonce must be at least 12 bytes"
    );
}

const TEST_KEY: &[u8] = b"0123456789abcdef0123456789abcdef";

#[test]
fn test_encrypt_decrypt_roundtrip() {
    let password = "MySecretWiFi123!";
    let nonce = "5f0c9a1e77d24b3c8e61a2f4d0b9c3e7";
    let encrypted = encrypt_with_key(password, TEST_KEY, nonce).expect("Encryption should succeed");
    assert!(encrypted.contains(':'), "Encrypted password should contain nonce separator");
    let decrypted = decrypt_with_key(&encrypted, TEST_KEY).expect("Decryption should succeed");
    assert_eq!(decrypted, password, "Decrypted password should match original");
}

#[test]
fn test_encrypt_produces_different_ciphertext() {
    let password = "SamePassword";
    let nonce1 = "00000000000000000000000000000001";
    let nonce2 = "00000000000000000000000000000002";
    let enc1 = encrypt_with_key(password, TEST_KEY, nonce1).expect("Encryption 1 should succeed");
    let enc2 = encrypt_with_key(password, TEST_KEY, nonce2).expect("Encryption 2 should succeed");
    assert_ne!(enc1, enc2, "Different nonces should produce different ciphertext");
}

#[test]
fn test_decrypt_invalid_format() {
    let result = decrypt_with_key("invalid_no_colon", TEST_KEY);
    assert!(result.is_err(), "Invalid format should return error");
}

#[test]
fn test_aes_gcm_encrypt_decrypt_roundtrip() {
    let password = "MyWiFiPassword123!";
    let key = TEST_KEY;
    let nonce_hex = "aabbccddeeff00112233445566778899";
    let encrypted = encrypt_with_key(password, key, nonce_hex).unwrap();
    let decrypted = decrypt_with_key(&encrypted, key).unwrap();
    assert_eq!(decrypted, password, "AES-GCM decrypt should recover original password");
}

#[test]
fn decrypt_errors() {
    assert_eq!(
        decrypt_with_key("invalid_no_colon", TEST_KEY).unwrap_err(),
        "Invalid encrypted password format"
    );
    assert!(decrypt_with_key("zz:00", TEST_KEY).unwrap_err().starts_with("Invalid nonce: "));
    assert_eq!(
        decrypt_with_key("0011:00", TEST_KEY).unwrap_err(),
        "AES-GCM nonce must be at least 12 bytes"
    );
    assert!(decrypt_with_key("000102030405060708090a0b:xyz", TEST_KEY)
        .unwrap_err()
        .starts_with("Invalid ciphertext: "));
    let enc = encrypt_with_key("pw", TEST_KEY, "000102030405060708090a0b").unwrap();
    let other = b"ffffffffffffffffffffffffffffffff";
    assert!(decrypt_with_key(&enc, other).unwrap_err().starts_with("AES-GCM decryption failed: "));
}

#[test]
fn ipc_error_messages_in_full() {
    assert_eq!(
        IpcError::SrcMismatch { expected: 2, got: 3 }.message(),
        "Response src_id mismatch: expected 0x0002, got 0x0003"
    );
    assert_eq!(
        IpcError::DstMismatch { expected: 1, got: 0xBEEF }.message(),
        "Response dst_id mismatch: expected 0x0001, got 0xBEEF"
    );
    assert_eq!(
        IpcError::PayloadTooLarge { len: 70000 }.message(),
        "Response payload too large: 70000 bytes"
    );
}

#[test]
fn json_strings_are_escaped_as_serde_json_does() {
    let r = set_device_status("a\"b\\c\nd\u{1}é").unwrap();
    assert_eq!(body(&r), "{\"status\":\"a\\\"b\\\\c\\nd\\u0001é\"}");
}
