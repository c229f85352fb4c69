use base64::Engine;
use micontrol_hw::nfc::{
    build_custom_tag, build_handshake_record, guidance, NdefRecord, NfcCustomRequest,
    NfcHandshake, NfcTagKind, TNF_WELL_KNOWN,
};

fn base64_decode(s: &str) -> Vec<u8> {
    base64::engine::general_purpose::STANDARD.decode(s).unwrap()
}

#[test]
fn ndef_text_record_roundtrip() {
    let rec = NdefRecord::text("Hello MiControl");
    let encoded = rec.encode();
    let decoded = NdefRecord::decode_single(&encoded).expect("decode");
    assert_eq!(decoded, rec);
    assert_eq!(decoded.tnf, TNF_WELL_KNOWN);
    assert_eq!(decoded.record_type, b"T".to_vec());
    let text = String::from_utf8(decoded.payload[3..].to_vec()).unwrap();
    assert_eq!(text, "Hello MiControl");
}

#[test]
fn ndef_uri_record_roundtrip() {
    let rec = NdefRecord::uri("https://example.com/pair");
    let decoded = NdefRecord::decode_single(&rec.encode()).unwrap();
    assert_eq!(decoded, rec);
}

#[test]
fn ndef_long_payload_roundtrip() {
    let text = "x".repeat(400);
    let rec = NdefRecord::text(&text);
    let decoded = NdefRecord::decode_single(&rec.encode()).unwrap();
    assert_eq!(decoded, rec);
}

#[test]
fn ndef_rejects_malformed() {
    assert!(NdefRecord::decode_single(b"").is_none());
    assert!(NdefRecord::decode_single(b"\x80").is_none());
    let mut bad = vec![0xC1u8, 0x05, 0x00, b'T'];
    assert!(NdefRecord::decode_single(&bad).is_none());
    bad.truncate(2);
    assert!(NdefRecord::decode_single(&bad).is_none());
}

#[test]
fn handshake_roundtrip() {
    let hs = NfcHandshake {
        schema: "micontrol-pair/v1".into(),
        pair_uri: "https://aka.ms/phone-link".into(),
        display_name: "MiBookPro14".into(),
        fingerprint: Some("aa:bb:cc:dd".into()),
    };
    let rec = build_handshake_record(&hs).unwrap();
    let decoded_text = String::from_utf8(rec.payload[3..].to_vec()).unwrap();
    let back: serde_json::Value = serde_json::from_str(&decoded_text).unwrap();
    assert_eq!(back["schema"], "micontrol-pair/v1");
    assert_eq!(back["pairUri"], "https://aka.ms/phone-link");
    assert_eq!(back["displayName"], "MiBookPro14");
    assert_eq!(back["fingerprint"], "aa:bb:cc:dd");
}

#[test]
fn handshake_json_omits_missing_fingerprint() {
    let hs = NfcHandshake {
        schema: "s".into(),
        pair_uri: "u\"q".into(),
        display_name: "n".into(),
        fingerprint: None,
    };
    assert_eq!(
        hs.to_json().unwrap(),
        r#"{"schema":"s","pairUri":"u\"q","displayName":"n"}"#
    );
}

#[test]
fn guidance_never_panics() {
    let g = guidance("MiBook Pro", Some("fp"), Some("https://aka.ms/phone-link"));
    assert!(g.link_available);
    assert!(g.link_uri.starts_with("ms-phone:"));
    assert!(g.pair_uri.starts_with("https://aka.ms/"));
    assert!(g.ndef_text.is_some());
    assert!(g.ndef_uri.is_some());
    assert!(!g.instructions.is_empty());

    let g2 = guidance("MiBook Pro", None, None);
    assert!(g2.link_available);
    assert!(g2.pair_uri.starts_with("https://aka.ms/"));
    assert!(g2.ndef_uri.is_some());
    assert_eq!(g2.ndef_text, None);
}

#[test]
fn guidance_link_is_percent_encoded() {
    let g = guidance("Mi Book_1-é", None, Some(""));
    assert_eq!(g.link_uri, "ms-phone:pairing?pc=Mi%20Book_1-%C3%A9");
    assert_eq!(g.pair_uri, "https://aka.ms/LinkPCPhone");
    assert_eq!(g.ndef_text, None);
    let bytes = base64_decode(g.ndef_uri.as_deref().unwrap());
    let rec = NdefRecord::decode_single(&bytes).unwrap();
    assert_eq!(rec.payload[1..].to_vec(), b"https://aka.ms/LinkPCPhone".to_vec());
}

#[test]
fn custom_uri_tag_builds_ndef() {
    let res = build_custom_tag(&NfcCustomRequest {
        kind: NfcTagKind::Uri,
        target: "https://example.com".into(),
    })
    .unwrap();
    assert_eq!(res.record_type, "uri");
    assert!(!res.ndef_b64.is_empty());
    let bytes = base64_decode(&res.ndef_b64);
    let rec = NdefRecord::decode_single(&bytes).unwrap();
    assert_eq!(rec.record_type, b"U".to_vec());
}

#[test]
fn custom_uri_rejects_no_scheme() {
    let err = build_custom_tag(&NfcCustomRequest {
        kind: NfcTagKind::Uri,
        target: "example.com".into(),
    })
    .unwrap_err();
    assert!(err.contains("scheme"));
}

#[test]
fn custom_text_tag_roundtrip() {
    let res = build_custom_tag(&NfcCustomRequest {
        kind: NfcTagKind::Text,
        target: "Hello from MiControl".into(),
    })
    .unwrap();
    let bytes = base64_decode(&res.ndef_b64);
    let rec = NdefRecord::decode_single(&bytes).unwrap();
    assert_eq!(rec.record_type, b"T".to_vec());
}

#[test]
fn custom_text_rejects_empty_and_long() {
    assert!(build_custom_tag(&NfcCustomRequest {
        kind: NfcTagKind::Text,
        target: "  ".into(),
    })
    .is_err());
    assert!(build_custom_tag(&NfcCustomRequest {
        kind: NfcTagKind::Text,
        target: "x".repeat(400),
    })
    .is_err());
}

#[test]
fn custom_internal_action_whitelist() {
    let ok = build_custom_tag(&NfcCustomRequest {
        kind: NfcTagKind::InternalAction,
        target: "lock".into(),
    })
    .unwrap();
    assert!(ok.description.contains("lock"));

    let err = build_custom_tag(&NfcCustomRequest {
        kind: NfcTagKind::InternalAction,
        target: "rm -rf".into(),
    })
    .unwrap_err();
    assert!(err.contains("Unknown action"));
}

#[test]
fn custom_tag_messages_are_exact() {
    let ok = build_custom_tag(&NfcCustomRequest {
        kind: NfcTagKind::InternalAction,
        target: "  LOCK ".into(),
    })
    .unwrap();
    assert_eq!(ok.description, "Trigger MiControl action: lock");
    let bytes = base64_decode(&ok.ndef_b64);
    let rec = NdefRecord::decode_single(&bytes).unwrap();
    assert_eq!(rec.payload[1..].to_vec(), b"micontrol://action/lock".to_vec());
    let t = build_custom_tag(&NfcCustomRequest { kind: NfcTagKind::Text, target: " hi ".into() })
        .unwrap();
    assert_eq!(t.description, "Show text: hi");
    assert_eq!(t.record_type, "text");
    let e = build_custom_tag(&NfcCustomRequest { kind: NfcTagKind::PairHandshake, target: "x".into() })
        .unwrap_err();
    assert_eq!(e, "use nfc_guidance for pairing");
    let e2 = build_custom_tag(&NfcCustomRequest { kind: NfcTagKind::Uri, target: " ".into() })
        .unwrap_err();
    assert_eq!(e2, "URI target must not be empty");
}

#[test]
fn ndef_payload_of_255_bytes_round_trips_in_long_form() {
    let rec = NdefRecord {
        tnf: 1,
        record_type: b"T".to_vec(),
        payload: vec![b'a'; 255],
    };
    let bytes = rec.encode();
    assert_eq!(&bytes[..5], &[0xC1, 1, 0xFF, 0, 255]);
    assert_eq!(NdefRecord::decode_single(&bytes), Some(rec));
    let text = NdefRecord::text(&"x".repeat(252));
    assert_eq!(NdefRecord::decode_single(&text.encode()), Some(text));
    let short = NdefRecord { tnf: 1, record_type: b"T".to_vec(), payload: vec![7; 254] };
    assert_eq!(short.encode()[2], 254);
    assert_eq!(NdefRecord::decode_single(&short.encode()), Some(short));
}
