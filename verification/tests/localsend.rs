use micontrol_hw::localsend::{
    accept_info, add_peer, check_selection, checksum_verdict, content_length, find_head_end,
    guess_mime, head_progress, info_to_peer, lookup, multicast_group, note_received,
    numbered_name, our_info, parse_http_head, parse_query, parse_usize, peer_base_url,
    prepare_url, receiver_status, record_sent, request_body, route, sanitize_file_name,
    stop_receiver, target_path, upload_response, upload_url, FileGrant, HeadProgress,
    LocalSendInfo, LocalSendPeer, PeerAddr, ReceiverState, Route, SendReport, UploadSessions,
    LS_PORT, PROTOCOL_VERSION,
};

fn info(fp: &str) -> LocalSendInfo {
    LocalSendInfo {
        alias: "Nice Orange".into(),
        version: "2.0".into(),
        device_model: Some("Samsung".into()),
        device_type: Some("mobile".into()),
        fingerprint: fp.into(),
        port: 53317,
        protocol: "http".into(),
        download: Some(true),
        announce: Some(true),
    }
}

#[test]
fn sanitize_file_name_strips_path() {
    assert_eq!(sanitize_file_name("..\\..\\evil.txt"), "evil.txt");
    assert_eq!(sanitize_file_name("/etc/passwd"), "passwd");
    assert_eq!(sanitize_file_name("a:b*c?d\"e<f>g|h"), "abcdefgh");
    assert_eq!(sanitize_file_name("   "), "received_file");
    assert_eq!(sanitize_file_name(".."), "received_file");
}

#[test]
fn sanitize_drops_control_characters_and_dots() {
    assert_eq!(sanitize_file_name("a\u{1}b\u{7f}c"), "abc");
    assert_eq!(sanitize_file_name("dir/"), "received_file");
    assert_eq!(sanitize_file_name("  .hidden.  "), "hidden");
}

#[test]
fn query_parser_splits_pairs() {
    let q = parse_query("/x?sessionId=a&fileId=b&token=c");
    assert_eq!(lookup(&q, "sessionId").as_deref(), Some("a"));
    assert_eq!(lookup(&q, "fileId").as_deref(), Some("b"));
    assert_eq!(lookup(&q, "token").as_deref(), Some("c"));
}

#[test]
fn query_later_pair_wins_and_bare_keys_are_skipped() {
    let q = parse_query("/x?a=1&flag&a=2&b=x=y");
    assert_eq!(q.len(), 3);
    assert_eq!(lookup(&q, "a").as_deref(), Some("2"));
    assert_eq!(lookup(&q, "b").as_deref(), Some("x=y"));
    assert_eq!(lookup(&q, "flag"), None);
    assert!(parse_query("/x").is_empty());
}

#[test]
fn guess_mime_covers_common_types() {
    assert_eq!(guess_mime("photo.png"), "image/png");
    assert_eq!(guess_mime("sound.mp3"), "audio/mpeg");
    assert_eq!(guess_mime("archive.zip"), "application/zip");
    assert_eq!(guess_mime("blob.xyz"), "application/octet-stream");
}

#[test]
fn guess_mime_ignores_case_and_leading_dot() {
    assert_eq!(guess_mime("PHOTO.JPG"), "image/jpeg");
    assert_eq!(guess_mime(".png"), "application/octet-stream");
    assert_eq!(guess_mime("noext"), "application/octet-stream");
    assert_eq!(guess_mime("a.tar.gz"), "application/gzip");
}

#[test]
fn parse_info_payload_ignores_self() {
    let own = "abc123";
    assert!(accept_info(info(own), own).is_none());
    let other = accept_info(info("peer"), own).expect("should parse");
    assert_eq!(other.alias, "Nice Orange");
    assert!(other.announce.unwrap_or(false));
}

#[test]
fn our_info_fields() {
    let i = our_info(true, "HOST".into(), "windows".into(), "fp".into());
    assert_eq!(i.version, PROTOCOL_VERSION);
    assert_eq!(i.port, LS_PORT);
    assert_eq!(i.protocol, "http");
    assert_eq!(i.device_type.as_deref(), Some("desktop"));
    assert_eq!(i.announce, Some(true));
    assert_eq!(multicast_group(), [224, 0, 0, 167]);
}

#[test]
fn peer_base_url_handles_v6() {
    let p = LocalSendPeer {
        alias: "x".into(),
        fingerprint: "fp".into(),
        protocol: "https".into(),
        port: 53317,
        addr: PeerAddr::V6("::1".into()),
        device_type: None,
        download: false,
    };
    assert_eq!(peer_base_url(&p), "https://[::1]:53317");
}

#[test]
fn peers_are_deduplicated_by_fingerprint() {
    let mut peers = Vec::new();
    add_peer(&mut peers, info_to_peer(&info("a"), PeerAddr::V4("10.0.0.2".into())));
    add_peer(&mut peers, info_to_peer(&info("a"), PeerAddr::V4("10.0.0.3".into())));
    add_peer(&mut peers, info_to_peer(&info("b"), PeerAddr::V4("10.0.0.4".into())));
    assert_eq!(peers.len(), 2);
    assert_eq!(peers[0].addr, PeerAddr::V4("10.0.0.2".into()));
    assert_eq!(peer_base_url(&peers[1]), "http://10.0.0.4:53317");
    let mut nodl = info("c");
    nodl.download = None;
    assert!(!info_to_peer(&nodl, PeerAddr::V4("1.2.3.4".into())).download);
}

#[test]
fn unique_path_candidates() {
    assert_eq!(numbered_name("report.pdf", 1), "report (1).pdf");
    assert_eq!(numbered_name("report.pdf", 2), "report (2).pdf");
    assert_eq!(numbered_name("README", 3), "README (3)");
    assert_eq!(numbered_name(".bashrc", 1), ".bashrc (1)");
}

#[test]
fn request_head_parsing() {
    let req = b"POST /api/localsend/v2/upload?sessionId=s HTTP/1.1\r\nHost: x\r\nContent-Length: 5\r\n\r\nhello";
    assert_eq!(find_head_end(req), Some(req.len() - 5));
    let head = parse_http_head(req).unwrap();
    assert_eq!(head.method, "POST");
    assert_eq!(head.target, "/api/localsend/v2/upload?sessionId=s");
    assert_eq!(lookup(&head.headers, "content-length").as_deref(), Some("5"));
    assert_eq!(content_length(&head.headers), 5);
    assert_eq!(head.header_len, req.len() - 5);
    assert_eq!(request_body(req, head.header_len, 5), b"hello".to_vec());
    assert_eq!(request_body(req, head.header_len, 99), b"hello".to_vec());
    assert_eq!(target_path(&head.target), "/api/localsend/v2/upload");
    let get = b"GET /x?a=1 HTTP/1.1\r\nHost: h\r\n\r\n";
    assert_eq!(get.len(), 32);
    assert_eq!(parse_http_head(get).unwrap().header_len, 32);
    assert!(parse_http_head(b"GET\r\n\r\n").is_none());
    assert!(parse_http_head(b"GET / HTTP/1.1\r\n").is_none());
    assert!(parse_http_head(b"GET / \xff\r\n\r\n").is_none());
}

#[test]
fn head_progress_limits() {
    assert_eq!(head_progress(b"GET / HTTP/1.1\r\n\r\n"), HeadProgress::Complete);
    assert_eq!(head_progress(b"GET / HTTP/1.1\r\n"), HeadProgress::NeedMore);
    assert_eq!(head_progress(&vec![b'a'; 65537]), HeadProgress::TooLarge);
}

#[test]
fn usize_parsing() {
    assert_eq!(parse_usize("42"), Some(42));
    assert_eq!(parse_usize("+7"), Some(7));
    assert_eq!(parse_usize(""), None);
    assert_eq!(parse_usize("+"), None);
    assert_eq!(parse_usize("-1"), None);
    assert_eq!(parse_usize("4a"), None);
    assert_eq!(parse_usize("99999999999999999999999"), None);
}

#[test]
fn routes_and_responses() {
    assert_eq!(route("POST", "/api/localsend/v2/register"), Route::Register);
    assert_eq!(route("POST", "/api/localsend/v2/prepare-upload"), Route::PrepareUpload);
    assert_eq!(route("POST", "/api/localsend/v2/upload"), Route::Upload);
    assert_eq!(route("POST", "/api/localsend/v2/cancel"), Route::Cancel);
    assert_eq!(route("GET", "/api/localsend/v2/info"), Route::Info);
    assert_eq!(route("GET", "/api/localsend/v2/upload"), Route::NotFound);
    assert_eq!(upload_response(200), (200, "OK", ""));
    assert_eq!(upload_response(422), (422, "Unprocessable", "checksum mismatch"));
    assert_eq!(upload_response(7), (500, "Error", "server error"));
}

fn grant(fid: &str, token: &str, size: u64) -> FileGrant {
    FileGrant {
        file_id: fid.into(),
        token: token.into(),
        name: "a.txt".into(),
        size,
        sha256: None,
    }
}

#[test]
fn uploads_need_the_granted_token() {
    let mut s = UploadSessions::new();
    s.insert_session("S".into(), vec![grant("F", "T", 5)]);
    let ok = parse_query("/u?sessionId=S&fileId=F&token=T");
    let g = s.check_upload(&ok, 5).unwrap();
    assert_eq!(g.name, "a.txt");
    assert_eq!(s.check_upload(&ok, 4).unwrap_err(), 400);
    let bad = parse_query("/u?sessionId=S&fileId=F&token=X");
    assert_eq!(s.check_upload(&bad, 5).unwrap_err(), 403);
    let nofile = parse_query("/u?sessionId=S&fileId=G&token=T");
    assert_eq!(s.check_upload(&nofile, 5).unwrap_err(), 403);
    let missing = parse_query("/u?sessionId=S&fileId=F");
    assert_eq!(s.check_upload(&missing, 5).unwrap_err(), 400);
    s.cancel("S");
    assert_eq!(s.check_upload(&ok, 5).unwrap_err(), 403);
}

#[test]
fn unknown_size_accepts_any_body() {
    let mut s = UploadSessions::new();
    s.insert_session("S".into(), vec![grant("F", "T", 0)]);
    s.insert_session("Z".into(), vec![grant("F", "U", 0)]);
    let q = parse_query("/u?sessionId=S&fileId=F&token=T");
    assert!(s.check_upload(&q, 123).is_ok());
    s.cancel("Z");
    assert!(s.check_upload(&q, 1).is_ok());
}

#[test]
fn checksum_mismatch_is_422() {
    let body = b"abc";
    let good = "ba7816bf8f01cfea414140de5dae2223b00361a396177a9cb410ff61f20015ad".to_string();
    assert_eq!(checksum_verdict(&Some(good), body), 200);
    assert_eq!(checksum_verdict(&Some("00".into()), body), 422);
    assert_eq!(checksum_verdict(&None, body), 200);
}

#[test]
fn receiver_state_and_status() {
    let mut st = ReceiverState::new();
    st.running = true;
    note_received(&mut st);
    let s = receiver_status(&st);
    assert!(s.running);
    assert_eq!((s.port, s.received_count), (53317, 1));
    stop_receiver(&mut st);
    assert!(!receiver_status(&st).running);
    st.received_count = u64::MAX;
    note_received(&mut st);
    assert_eq!(st.received_count, 0);
}

#[test]
fn send_helpers() {
    assert_eq!(check_selection(&vec![]), Err("No files selected".to_string()));
    assert_eq!(check_selection(&vec!["a".into()]), Ok(()));
    assert_eq!(
        prepare_url("http://h:1"),
        "http://h:1/api/localsend/v2/prepare-upload"
    );
    assert_eq!(
        upload_url("http://h:1", "s", "f", "t"),
        "http://h:1/api/localsend/v2/upload?sessionId=s&fileId=f&token=t"
    );
    let mut r = SendReport { session_id: "s".into(), files: vec![], total_bytes: 0 };
    record_sent(&mut r, "a".into(), 3);
    record_sent(&mut r, "b".into(), 4);
    assert_eq!(r.files, vec!["a".to_string(), "b".to_string()]);
    assert_eq!(r.total_bytes, 7);
}

#[test]
fn parse_info_payload_accepts_peer() {
    let peer_info = info("0f1e2d3c4b5a69788796a5b4c3d2e1f0");
    let parsed = accept_info(peer_info, "ffffffffffffffffffffffffffffffff").expect("should parse");
    assert_eq!(parsed.alias, "Nice Orange");
    assert_eq!(parsed.protocol, "http");
    assert!(parsed.announce.unwrap_or(false));
}
