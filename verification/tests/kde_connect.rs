use micontrol_hw::kde_connect::{
    add_device, build_identity, our_capabilities, parse_identity_payload, ping_port,
    ping_replied, KdeIdentityBody, KDE_UDP_PORT,
};
use micontrol_hw::localsend::PeerAddr;

fn body(id: &str) -> KdeIdentityBody {
    KdeIdentityBody {
        device_id: id.into(),
        device_name: "Pixel 9".into(),
        protocol_version: 7,
        device_type: "phone".into(),
        incoming_capabilities: vec!["kdeconnect.ping".into(), "kdeconnect.clipboard".into()],
        outgoing_capabilities: vec!["kdeconnect.ping".into()],
        pairing: None,
    }
}

#[test]
fn parse_identity_accepts_peer() {
    let dev = parse_identity_payload(
        "kdeconnect.identity",
        Some(Ok(body("aa:bb:cc"))),
        "own",
        PeerAddr::V4("192.168.1.50".into()),
    )
    .unwrap();
    assert_eq!(dev.device_id, "aa:bb:cc");
    assert_eq!(dev.device_name, "Pixel 9");
    assert_eq!(dev.device_type, "phone");
    assert_eq!(dev.addr, PeerAddr::V4("192.168.1.50".into()));
    assert!(dev.incoming_capabilities.contains(&"kdeconnect.ping".into()));
    assert!(!dev.pairing_optional);
}

#[test]
fn parse_identity_rejects_wrong_type() {
    let r = parse_identity_payload("kdeconnect.ping", None, "own", PeerAddr::V4("127.0.0.1".into()));
    assert_eq!(r, Err("unexpected message type kdeconnect.ping".into()));
}

#[test]
fn parse_identity_rejects_malformed() {
    let a = PeerAddr::V4("127.0.0.1".into());
    assert_eq!(
        parse_identity_payload("kdeconnect.identity", None, "own", a.clone()),
        Err("identity without body".into())
    );
    assert_eq!(
        parse_identity_payload("kdeconnect.identity", Some(Err("missing field".into())), "own", a.clone()),
        Err("invalid identity body: missing field".into())
    );
    assert_eq!(
        parse_identity_payload("kdeconnect.identity", Some(Ok(body("own"))), "own", a),
        Err("self packet".into())
    );
}

#[test]
fn build_identity_is_valid_message() {
    let b = build_identity("id".into());
    assert_eq!(b.device_type, "desktop");
    assert_eq!(b.device_name, "MiControl");
    assert!(b.incoming_capabilities.contains(&"kdeconnect.ping".to_string()));
    assert_eq!(b.pairing, Some(false));
    assert_eq!(our_capabilities().len(), 3);
}

#[test]
fn devices_are_deduplicated_and_get_the_tcp_port() {
    let mut found = Vec::new();
    let mut b = body("x");
    b.pairing = Some(false);
    let d = parse_identity_payload("kdeconnect.identity", Some(Ok(b)), "own", PeerAddr::V4("1.1.1.1".into())).unwrap();
    assert!(d.pairing_optional);
    assert_eq!(ping_port(&d), KDE_UDP_PORT);
    add_device(&mut found, d.clone());
    add_device(&mut found, d);
    assert_eq!(found.len(), 1);
    assert_eq!(found[0].tcp_port, 1716);
}

#[test]
fn ping_reply_detection() {
    assert!(ping_replied(b"{\"type\":\"kdeconnect.ping.reply\"}\n"));
    assert!(!ping_replied(b"{\"type\":\"kdeconnect.ping\"}\n"));
    assert!(ping_replied(b"\xff kdeconnect.ping.reply"));
}
