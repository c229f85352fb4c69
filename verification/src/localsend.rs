//! LocalSend protocol v2: the info packets and peers of discovery, the file
//! names and types of a transfer, the HTTP requests the embedded receiver
//! parses and routes, and the sessions and tokens that guard its uploads.
use vstd::prelude::*;
use crate::hotkeys::{file_name, last_sep, last_sep_exec, strip_seps, strip_seps_len};
use crate::iotservice::{decimal, decimal_u64, hex_lower, hex_lower_exec, sha256, sha256_digest};
use vstd::utf8::{decode_utf8, valid_utf8};
use crate::text::{
    append_chars, append_str, ascii_lower, chars_eq, chars_of, eq_pred, last_index_exec,
    last_index_of, lead_count, lemma_last_index_from, lemma_lead_count_le, lemma_trail_count_le, lower_seq, owned,
    slice_chars, string_of, trim_by, trim_char, trim_char_exec, trim_ws, trim_ws_exec,
    ws_pred, find_seq, find_sub, is_ws, is_ws_exec, lemma_find_from, occurs_at, utf8_text, split_on, split_seq, str_is,
};

verus! {

/// Protocol major.minor advertised to peers.
pub const PROTOCOL_VERSION: &'static str = "2.0";
/// Discovery and HTTP port.
pub const LS_PORT: u16 = 53317;
/// Device type advertised in info packets.
pub const DEVICE_TYPE: &'static str = "desktop";

/// The multicast group of discovery, 224.0.0.167.
pub fn multicast_group() -> (g: [u8; 4])
    ensures
        g@ == seq![224u8, 0u8, 0u8, 167u8],
{
    let g: [u8; 4] = [224, 0, 0, 167];
    assert(g@ =~= seq![224u8, 0u8, 0u8, 167u8]);
    g
}

// ── Info packets and peers ──────────────────────────────────────────────────

/// Info and announcement payload shared by all LocalSend endpoints.
#[derive(Debug, Clone, PartialEq)]
pub struct LocalSendInfo {
    pub alias: String,
    pub version: String,
    pub device_model: Option<String>,
    pub device_type: Option<String>,
    pub fingerprint: String,
    pub port: u16,
    pub protocol: String,
    pub download: Option<bool>,
    pub announce: Option<bool>,
}

/// Our own info packet: `announce` is true in a multicast announcement and
/// false in a reply.
pub fn our_info(announce: bool, alias: String, os: String, fingerprint: String) -> (i: LocalSendInfo)
    ensures
        i.alias == alias,
        i.version@ == PROTOCOL_VERSION@,
        i.device_model == Some(os),
        i.device_type is Some && i.device_type.unwrap()@ == DEVICE_TYPE@,
        i.fingerprint == fingerprint,
        i.port == LS_PORT,
        i.protocol@ == "http"@,
        i.download == Some(true),
        i.announce == Some(announce),
{
    LocalSendInfo {
        alias,
        version: owned(PROTOCOL_VERSION),
        device_model: Some(os),
        device_type: Some(owned(DEVICE_TYPE)),
        fingerprint,
        port: LS_PORT,
        protocol: owned("http"),
        download: Some(true),
        announce: Some(announce),
    }
}

/// A received info packet, unless it is our own (same fingerprint).
pub fn accept_info(info: LocalSendInfo, own_fingerprint: &str) -> (r: Option<LocalSendInfo>)
    ensures
        r == if info.fingerprint@ == own_fingerprint@ {
            None
        } else {
            Some(info)
        },
{
    if chars_eq(&chars_of(info.fingerprint.as_str()), &chars_of(own_fingerprint)) {
        None
    } else {
        Some(info)
    }
}

/// A peer's address, by its text form.
#[derive(Debug, Clone, PartialEq, Eq)]
pub enum PeerAddr {
    V4(String),
    V6(String),
}

/// A discovered peer.
#[derive(Debug, Clone, PartialEq)]
pub struct LocalSendPeer {
    pub alias: String,
    pub fingerprint: String,
    /// "http" or "https".
    pub protocol: String,
    pub port: u16,
    pub addr: PeerAddr,
    pub device_type: Option<String>,
    pub download: bool,
}

/// The peer that sent `info` from `addr`.
pub fn info_to_peer(info: &LocalSendInfo, addr: PeerAddr) -> (p: LocalSendPeer)
    ensures
        p.alias@ == info.alias@,
        p.fingerprint@ == info.fingerprint@,
        p.protocol@ == info.protocol@,
        p.port == info.port,
        p.addr == addr,
        match info.device_type {
            Some(t) => p.device_type is Some && p.device_type.unwrap()@ == t@,
            None => p.device_type is None,
        },
        p.download == match info.download {
            Some(d) => d,
            None => false,
        },
{
    let device_type = match &info.device_type {
        Some(t) => Some(owned(t.as_str())),
        None => None,
    };
    LocalSendPeer {
        alias: owned(info.alias.as_str()),
        fingerprint: owned(info.fingerprint.as_str()),
        protocol: owned(info.protocol.as_str()),
        port: info.port,
        addr,
        device_type,
        download: match info.download {
            Some(d) => d,
            None => false,
        },
    }
}

/// No two peers share a fingerprint.
pub open spec fn distinct_peers(ps: Seq<LocalSendPeer>) -> bool {
    forall|i: int, j: int|
        0 <= i < j < ps.len() ==> (#[trigger] ps[i]).fingerprint@ != (#[trigger] ps[j]).fingerprint@
}

pub open spec fn has_fingerprint(ps: Seq<LocalSendPeer>, fp: Seq<char>) -> bool {
    exists|i: int| 0 <= i < ps.len() && (#[trigger] ps[i]).fingerprint@ == fp
}

/// Records a discovered peer unless one with its fingerprint is known; the
/// list never holds one device twice.
pub fn add_peer(peers: &mut Vec<LocalSendPeer>, peer: LocalSendPeer)
    ensures
        has_fingerprint(old(peers)@, peer.fingerprint@) ==> final(peers)@ == old(peers)@,
        !has_fingerprint(old(peers)@, peer.fingerprint@) ==> final(peers)@ == old(peers)@.push(
            peer,
        ),
        distinct_peers(old(peers)@) ==> distinct_peers(final(peers)@),
{
    let fp = chars_of(peer.fingerprint.as_str());
    let mut i: usize = 0;
    while i < peers.len()
        invariant
            i <= peers.len(),
            fp@ == peer.fingerprint@,
            forall|k: int| 0 <= k < i ==> (#[trigger] peers@[k]).fingerprint@ != fp@,
        decreases peers.len() - i,
    {
        if chars_eq(&chars_of(peers[i].fingerprint.as_str()), &fp) {
            return;
        }
        i += 1;
    }
    let ghost before = peers@;
    peers.push(peer);
    proof {
        assert(!has_fingerprint(before, fp@));
    }
}

fn push_decimal(v: &mut Vec<char>, n: u64)
    ensures
        final(v)@ == old(v)@ + decimal(n as nat),
{
    let d = decimal_u64(n);
    append_chars(v, &d);
}

/// The base URL of a peer: `protocol://host:port`, with an IPv6 host in
/// brackets.
pub open spec fn base_url_of(p: LocalSendPeer) -> Seq<char> {
    let host = match p.addr {
        PeerAddr::V4(a) => a@,
        PeerAddr::V6(a) => "["@ + a@ + "]"@,
    };
    p.protocol@ + "://"@ + host + ":"@ + decimal(p.port as nat)
}

pub fn peer_base_url(peer: &LocalSendPeer) -> (r: String)
    ensures
        r@ == base_url_of(*peer),
{
    let mut v = chars_of(peer.protocol.as_str());
    append_str(&mut v, "://");
    match &peer.addr {
        PeerAddr::V4(a) => append_str(&mut v, a.as_str()),
        PeerAddr::V6(a) => {
            append_str(&mut v, "[");
            append_str(&mut v, a.as_str());
            append_str(&mut v, "]");
        },
    }
    append_str(&mut v, ":");
    push_decimal(&mut v, peer.port as u64);
    string_of(&v)
}

// ── File names and types ────────────────────────────────────────────────────

/// The final component of a Windows path, by characters.
fn component(v: &Vec<char>) -> (r: Option<Vec<char>>)
    ensures
        match file_name(v@) {
            Some(c) => r is Some && r.unwrap()@ == c,
            None => r is None,
        },
{
    let m = strip_seps_len(v, v.len());
    assert(v@.take(v.len() as int) == v@);
    let st = slice_chars(v, 0, m);
    assert(st@ == strip_seps(v@));
    let k = last_sep_exec(&st, m);
    assert(st@.len() == m);
    let start: usize = match k {
        Some(i) => i + 1,
        None => 0,
    };
    let name = slice_chars(&st, start, m);
    assert(name@ == st@.skip(last_sep(st@, st@.len() as int) + 1));
    if name.len() == 0 || chars_eq(&name, &chars_of("..")) {
        None
    } else {
        Some(name)
    }
}

/// A file name split at its last dot into stem and extension; a name
/// without a dot, or whose only dot leads, has no extension
/// (`Path::file_stem`, `Path::extension`).
pub open spec fn split_ext(c: Seq<char>) -> (Seq<char>, Option<Seq<char>>) {
    match last_index_of(c, '.') {
        Some(i) => if i == 0 {
            (c, None)
        } else {
            (c.take(i), Some(c.skip(i + 1)))
        },
        None => (c, None),
    }
}

fn split_ext_exec(c: &Vec<char>) -> (r: (Vec<char>, Option<Vec<char>>))
    ensures
        r.0@ == split_ext(c@).0,
        match split_ext(c@).1 {
            Some(e) => r.1 is Some && r.1.unwrap()@ == e,
            None => r.1 is None,
        },
{
    proof {
        lemma_last_index_from(c@, '.', c@.len() as int);
    }
    match last_index_exec(c, '.') {
        Some(i) => {
            if i == 0 {
                (slice_chars(c, 0, c.len()), None)
            } else {
                (slice_chars(c, 0, i), Some(slice_chars(c, i + 1, c.len())))
            }
        },
        None => (slice_chars(c, 0, c.len()), None),
    }
}

/// The extension of a path's final component.
pub open spec fn extension_of(name: Seq<char>) -> Option<Seq<char>> {
    match file_name(name) {
        Some(c) => split_ext(c).1,
        None => None,
    }
}

/// The MIME type announced for each extension.
pub open spec fn mime_table() -> Seq<(&'static str, &'static str)> {
    seq![
        ("png", "image/png"),
        ("jpg", "image/jpeg"),
        ("jpeg", "image/jpeg"),
        ("gif", "image/gif"),
        ("webp", "image/webp"),
        ("bmp", "image/bmp"),
        ("mp4", "video/mp4"),
        ("mkv", "video/x-matroska"),
        ("webm", "video/webm"),
        ("mov", "video/quicktime"),
        ("mp3", "audio/mpeg"),
        ("wav", "audio/wav"),
        ("ogg", "audio/ogg"),
        ("flac", "audio/flac"),
        ("pdf", "application/pdf"),
        ("txt", "text/plain"),
        ("md", "text/markdown"),
        ("json", "application/json"),
        ("zip", "application/zip"),
        ("7z", "application/x-7z-compressed"),
        ("rar", "application/vnd.rar"),
        ("tar", "application/x-tar"),
        ("gz", "application/gzip"),
        ("apk", "application/vnd.android.package-archive"),
        ("exe", "application/x-msdownload"),
        ("msi", "application/x-msi"),
    ]
}

pub open spec fn first_mime(t: Seq<(&'static str, &'static str)>, ext: Seq<char>) -> Option<&'static str>
    decreases t.len(),
{
    if t.len() == 0 {
        None
    } else if t[0].0@ == ext {
        Some(t[0].1)
    } else {
        first_mime(t.drop_first(), ext)
    }
}

/// The MIME type of a file by its extension, ignoring ASCII case;
/// `application/octet-stream` for anything else.
pub open spec fn mime_of(name: Seq<char>) -> Seq<char> {
    let ext = match extension_of(name) {
        Some(e) => lower_seq(e),
        None => seq![],
    };
    match first_mime(mime_table(), ext) {
        Some(m) => m@,
        None => "application/octet-stream"@,
    }
}

fn mime_list() -> (v: Vec<(&'static str, &'static str)>)
    ensures
        v@ == mime_table(),
{
    let v: Vec<(&'static str, &'static str)> = vec![
        ("png", "image/png"),
        ("jpg", "image/jpeg"),
        ("jpeg", "image/jpeg"),
        ("gif", "image/gif"),
        ("webp", "image/webp"),
        ("bmp", "image/bmp"),
        ("mp4", "video/mp4"),
        ("mkv", "video/x-matroska"),
        ("webm", "video/webm"),
        ("mov", "video/quicktime"),
        ("mp3", "audio/mpeg"),
        ("wav", "audio/wav"),
        ("ogg", "audio/ogg"),
        ("flac", "audio/flac"),
        ("pdf", "application/pdf"),
        ("txt", "text/plain"),
        ("md", "text/markdown"),
        ("json", "application/json"),
        ("zip", "application/zip"),
        ("7z", "application/x-7z-compressed"),
        ("rar", "application/vnd.rar"),
        ("tar", "application/x-tar"),
        ("gz", "application/gzip"),
        ("apk", "application/vnd.android.package-archive"),
        ("exe", "application/x-msdownload"),
        ("msi", "application/x-msi"),
    ];
    assert(v@ =~= mime_table());
    v
}

/// Best-effort MIME type of a file for the transfer's metadata.
pub fn guess_mime(name: &str) -> (r: String)
    ensures
        r@ == mime_of(name@),
{
    let ext: Vec<char> = match component(&chars_of(name)) {
        Some(c) => {
            let (_, e) = split_ext_exec(&c);
            match e {
                Some(e) => ascii_lower(&e),
                None => Vec::new(),
            }
        },
        None => Vec::new(),
    };
    assert(ext@ == match extension_of(name@) {
        Some(e) => lower_seq(e),
        None => seq![],
    }) by {
        assert(lower_seq(seq![]) =~= Seq::<char>::empty());
    }
    let table = mime_list();
    assert(mime_table().skip(0) =~= mime_table());
    let mut i: usize = 0;
    while i < table.len()
        invariant
            i <= table.len(),
            table@ == mime_table(),
            first_mime(mime_table(), ext@) == first_mime(mime_table().skip(i as int), ext@),
            ext@ == match extension_of(name@) {
                Some(e) => lower_seq(e),
                None => seq![],
            },
        decreases table.len() - i,
    {
        assert(mime_table().skip(i as int).drop_first() == mime_table().skip(i as int + 1));
        let (e, m) = table[i];
        assert(mime_table().skip(i as int)[0] == table@[i as int]);
        if chars_eq(&chars_of(e), &ext) {
            assert(first_mime(mime_table().skip(i as int), ext@) == Some(m));
            return owned(m);
        }
        i += 1;
    }
    owned("application/octet-stream")
}

/// Characters that may not appear in a saved file name: separators, the
/// ones Windows forbids, and control characters.
pub open spec fn forbidden(c: char) -> bool {
    c == '/' || c == '\\' || c == '\0' || c == ':' || c == '*' || c == '?' || c == '"' || c == '<'
        || c == '>' || c == '|' || (c as u32) < 0x20 || (0x7f <= (c as u32) && (c as u32) < 0xa0)
}

pub open spec fn keep_allowed(s: Seq<char>) -> Seq<char>
    decreases s.len(),
{
    if s.len() == 0 {
        s
    } else {
        let r = keep_allowed(s.drop_last());
        if forbidden(s.last()) {
            r
        } else {
            r.push(s.last())
        }
    }
}

/// A received file's name made safe to save: only the text after the last
/// separator, without forbidden characters, surrounding whitespace or
/// dots; `received_file` when nothing is left.
pub open spec fn sanitized(name: Seq<char>) -> Seq<char> {
    let b = name.skip(last_sep(name, name.len() as int) + 1);
    let base = if b.len() == 0 {
        "received_file"@
    } else {
        b
    };
    let t = trim_char(trim_ws(keep_allowed(base)), '.');
    if t.len() == 0 {
        "received_file"@
    } else {
        t
    }
}

fn is_forbidden(c: char) -> (r: bool)
    ensures
        r == forbidden(c),
{
    c == '/' || c == '\\' || c == '\0' || c == ':' || c == '*' || c == '?' || c == '"' || c == '<'
        || c == '>' || c == '|' || (c as u32) < 0x20 || (0x7f <= (c as u32) && (c as u32) < 0xa0)
}

pub fn sanitize_file_name(name: &str) -> (r: String)
    ensures
        r@ == sanitized(name@),
{
    let v = chars_of(name);
    let start: usize = match last_sep_exec(&v, v.len()) {
        Some(i) => i + 1,
        None => 0,
    };
    let b = slice_chars(&v, start, v.len());
    let base = if b.len() == 0 {
        chars_of("received_file")
    } else {
        b
    };
    let mut kept: Vec<char> = Vec::new();
    let mut i: usize = 0;
    while i < base.len()
        invariant
            i <= base.len(),
            kept@ == keep_allowed(base@.take(i as int)),
        decreases base.len() - i,
    {
        assert(base@.take(i as int + 1).drop_last() == base@.take(i as int));
        if !is_forbidden(base[i]) {
            kept.push(base[i]);
        }
        i += 1;
    }
    assert(base@.take(base.len() as int) == base@);
    let t = trim_char_exec(&trim_ws_exec(&kept), '.');
    if t.len() == 0 {
        owned("received_file")
    } else {
        string_of(&t)
    }
}

proof fn lemma_keep_allowed(s: Seq<char>)
    ensures
        forall|i: int| 0 <= i < keep_allowed(s).len() ==> !forbidden(#[trigger] keep_allowed(s)[i]),
    decreases s.len(),
{
    if s.len() > 0 {
        lemma_keep_allowed(s.drop_last());
        let r = keep_allowed(s.drop_last());
        assert forall|i: int| 0 <= i < keep_allowed(s).len() implies !forbidden(
            #[trigger] keep_allowed(s)[i],
        ) by {
            if i < r.len() {
                assert(keep_allowed(s)[i] == r[i]);
            }
        }
    }
}

proof fn lemma_trim_keeps_allowed(s: Seq<char>, p: spec_fn(char) -> bool)
    requires
        forall|i: int| 0 <= i < s.len() ==> !forbidden(#[trigger] s[i]),
    ensures
        forall|i: int| 0 <= i < trim_by(s, p).len() ==> !forbidden(#[trigger] trim_by(s, p)[i]),
{
    lemma_lead_count_le(s, p);
    let a = s.skip(lead_count(s, p) as int);
    lemma_trail_count_le(a, p);
    assert forall|i: int| 0 <= i < trim_by(s, p).len() implies !forbidden(#[trigger] trim_by(s, p)[i]) by {
        assert(trim_by(s, p)[i] == s[lead_count(s, p) + i]);
    }
}

/// A saved name is never empty and never holds a separator or another
/// forbidden character, so a sender cannot place a file outside the
/// download folder.
pub proof fn law_sanitized_name_is_safe(name: Seq<char>)
    ensures
        sanitized(name).len() > 0,
        forall|i: int| 0 <= i < sanitized(name).len() ==> !forbidden(#[trigger] sanitized(name)[i]),
{
    reveal_strlit("received_file");
    let b = name.skip(last_sep(name, name.len() as int) + 1);
    let base = if b.len() == 0 {
        "received_file"@
    } else {
        b
    };
    lemma_keep_allowed(base);
    lemma_trim_keeps_allowed(keep_allowed(base), ws_pred());
    lemma_trim_keeps_allowed(trim_ws(keep_allowed(base)), eq_pred('.'));
}

/// The `i`-th alternative name of a file that exists already:
/// `stem (i).ext`, or `stem (i)` without an extension.
pub open spec fn numbered_name_of(name: Seq<char>, i: nat) -> Seq<char> {
    let (stem, ext) = match file_name(name) {
        Some(c) => (
            split_ext(c).0,
            match split_ext(c).1 {
                Some(e) => e,
                None => seq![],
            },
        ),
        None => ("file"@, seq![]),
    };
    stem + " ("@ + decimal(i) + ")"@ + if ext.len() == 0 {
        seq![]
    } else {
        "."@ + ext
    }
}

/// Candidate names for a received file tried in turn until one is free.
pub fn numbered_name(name: &str, i: u32) -> (r: String)
    ensures
        r@ == numbered_name_of(name@, i as nat),
{
    let (stem, ext): (Vec<char>, Vec<char>) = match component(&chars_of(name)) {
        Some(c) => {
            let (st, e) = split_ext_exec(&c);
            (
                st,
                match e {
                    Some(e) => e,
                    None => Vec::new(),
                },
            )
        },
        None => (chars_of("file"), Vec::new()),
    };
    let mut v = stem;
    append_str(&mut v, " (");
    push_decimal(&mut v, i as u64);
    append_str(&mut v, ")");
    if ext.len() > 0 {
        append_str(&mut v, ".");
        append_chars(&mut v, &ext);
    }
    string_of(&v)
}

// ── HTTP requests of the embedded receiver ──────────────────────────────────

/// Whether `\r\n\r\n` starts at `i`.
pub open spec fn blank_line_at(b: Seq<u8>, i: int) -> bool {
    0 <= i && i + 4 <= b.len() && b[i] == 13 && b[i + 1] == 10 && b[i + 2] == 13 && b[i + 3] == 10
}

/// The first position at or after `i` where `\r\n\r\n` starts.
pub open spec fn blank_line_from(b: Seq<u8>, i: int) -> Option<int>
    decreases b.len() - i,
{
    if i < 0 || i + 4 > b.len() {
        None
    } else if blank_line_at(b, i) {
        Some(i)
    } else {
        blank_line_from(b, i + 1)
    }
}

/// The index just past the `\r\n\r\n` that ends the request head.
pub open spec fn head_end_of(b: Seq<u8>) -> Option<int> {
    match blank_line_from(b, 0) {
        Some(i) => Some(i + 4),
        None => None,
    }
}

pub proof fn lemma_blank_line_from(b: Seq<u8>, i: int)
    requires
        0 <= i,
    ensures
        match blank_line_from(b, i) {
            Some(k) => i <= k && k + 4 <= b.len() && blank_line_at(b, k),
            None => true,
        },
    decreases b.len() - i,
{
    if i + 4 <= b.len() && !blank_line_at(b, i) {
        lemma_blank_line_from(b, i + 1);
    }
}

pub fn find_head_end(buf: &[u8]) -> (r: Option<usize>)
    ensures
        match head_end_of(buf@) {
            Some(e) => r == Some(e as usize) && e <= buf@.len(),
            None => r is None,
        },
{
    proof {
        lemma_blank_line_from(buf@, 0);
    }
    if buf.len() < 4 {
        return None;
    }
    let mut i: usize = 0;
    while i <= buf.len() - 4
        invariant
            buf.len() >= 4,
            i <= buf.len() - 3,
            blank_line_from(buf@, 0) == blank_line_from(buf@, i as int),
        decreases buf.len() - 3 - i,
    {
        if buf[i] == 13 && buf[i + 1] == 10 && buf[i + 2] == 13 && buf[i + 3] == 10 {
            return Some(i + 4);
        }
        i += 1;
    }
    None
}

/// How reading the request head goes on: it is complete, it grew past the
/// 64 KiB limit (answered 413), or more bytes are needed.
#[derive(Debug, Clone, Copy, PartialEq, Eq, Structural)]
pub enum HeadProgress {
    Complete,
    TooLarge,
    NeedMore,
}

pub fn head_progress(buf: &[u8]) -> (p: HeadProgress)
    ensures
        p == if head_end_of(buf@) is Some {
            HeadProgress::Complete
        } else if buf@.len() > 65536 {
            HeadProgress::TooLarge
        } else {
            HeadProgress::NeedMore
        },
{
    if find_head_end(buf).is_some() {
        HeadProgress::Complete
    } else if buf.len() > 65536 {
        HeadProgress::TooLarge
    } else {
        HeadProgress::NeedMore
    }
}

/// The lines of a text split at `\r\n`, read left to right: the lines
/// completed so far and the line being read.
pub open spec fn crlf_acc(s: Seq<char>) -> (Seq<Seq<char>>, Seq<char>)
    decreases s.len(),
{
    if s.len() == 0 {
        (seq![], seq![])
    } else {
        let (ls, cur) = crlf_acc(s.drop_last());
        if s.last() == '\n' && cur.len() > 0 && cur.last() == '\r' {
            (ls.push(cur.drop_last()), seq![])
        } else {
            (ls, cur.push(s.last()))
        }
    }
}

/// `str::split("\r\n")`.
pub open spec fn crlf_lines(s: Seq<char>) -> Seq<Seq<char>> {
    crlf_acc(s).0.push(crlf_acc(s).1)
}

pub open spec fn char_views(v: Seq<Vec<char>>) -> Seq<Seq<char>> {
    v.map_values(|x: Vec<char>| x@)
}

fn split_crlf(v: &Vec<char>) -> (r: Vec<Vec<char>>)
    ensures
        char_views(r@) == crlf_lines(v@),
{
    let mut done: Vec<Vec<char>> = Vec::new();
    let mut cur: Vec<char> = Vec::new();
    let mut i: usize = 0;
    while i < v.len()
        invariant
            i <= v.len(),
            char_views(done@) == crlf_acc(v@.take(i as int)).0,
            cur@ == crlf_acc(v@.take(i as int)).1,
        decreases v.len() - i,
    {
        assert(v@.take(i as int + 1).drop_last() == v@.take(i as int));
        let c = v[i];
        if c == '\n' && cur.len() > 0 && cur[cur.len() - 1] == '\r' {
            cur.pop();
            let line = cur;
            done.push(line);
            cur = Vec::new();
            assert(char_views(done@) =~= crlf_acc(v@.take(i as int)).0.push(line@));
        } else {
            cur.push(c);
        }
        i += 1;
    }
    assert(v@.take(v.len() as int) == v@);
    let ghost before = done@;
    done.push(cur);
    assert(char_views(done@) =~= char_views(before).push(cur@));
    done
}

/// Whitespace-separated words read left to right: the words completed so
/// far and the word being read.
pub open spec fn words_acc(s: Seq<char>) -> (Seq<Seq<char>>, Seq<char>)
    decreases s.len(),
{
    if s.len() == 0 {
        (seq![], seq![])
    } else {
        let (ws, cur) = words_acc(s.drop_last());
        if is_ws(s.last()) {
            if cur.len() > 0 {
                (ws.push(cur), seq![])
            } else {
                (ws, cur)
            }
        } else {
            (ws, cur.push(s.last()))
        }
    }
}

/// `str::split_whitespace`: the maximal runs of non-whitespace characters.
pub open spec fn words(s: Seq<char>) -> Seq<Seq<char>> {
    let (ws, cur) = words_acc(s);
    if cur.len() > 0 {
        ws.push(cur)
    } else {
        ws
    }
}

pub(crate) fn split_words(v: &Vec<char>) -> (r: Vec<Vec<char>>)
    ensures
        char_views(r@) == words(v@),
{
    let mut done: Vec<Vec<char>> = Vec::new();
    let mut cur: Vec<char> = Vec::new();
    let mut i: usize = 0;
    while i < v.len()
        invariant
            i <= v.len(),
            char_views(done@) == words_acc(v@.take(i as int)).0,
            cur@ == words_acc(v@.take(i as int)).1,
        decreases v.len() - i,
    {
        assert(v@.take(i as int + 1).drop_last() == v@.take(i as int));
        let c = v[i];
        if is_ws_exec(c) {
            if cur.len() > 0 {
                let w = cur;
                done.push(w);
                cur = Vec::new();
                assert(char_views(done@) =~= words_acc(v@.take(i as int)).0.push(w@));
            }
        } else {
            cur.push(c);
        }
        i += 1;
    }
    assert(v@.take(v.len() as int) == v@);
    if cur.len() > 0 {
        let ghost before = done@;
        done.push(cur);
        assert(char_views(done@) =~= char_views(before).push(cur@));
    }
    done
}

pub open spec fn pair_views(v: Seq<(String, String)>) -> Seq<(Seq<char>, Seq<char>)> {
    v.map_values(|p: (String, String)| (p.0@, p.1@))
}

/// The header of a line `key: value` (`split_once(':')`): the key trimmed
/// and ASCII lower-cased, the value trimmed.
pub open spec fn header_of(line: Seq<char>) -> Option<(Seq<char>, Seq<char>)> {
    match find_seq(line, seq![':']) {
        Some(k) => Some((lower_seq(trim_ws(line.take(k))), trim_ws(line.skip(k + 1)))),
        None => None,
    }
}

/// The headers of the lines, in order; lines without a colon are skipped.
pub open spec fn header_pairs(lines: Seq<Seq<char>>) -> Seq<(Seq<char>, Seq<char>)>
    decreases lines.len(),
{
    if lines.len() == 0 {
        seq![]
    } else {
        let r = header_pairs(lines.drop_last());
        match header_of(lines.last()) {
            Some(h) => r.push(h),
            None => r,
        }
    }
}

/// A parsed request head.
#[derive(Debug, Clone)]
pub struct HttpHead {
    pub method: String,
    pub target: String,
    /// Headers in the order received; a later header of the same name wins.
    pub headers: Vec<(String, String)>,
    /// The byte offset just past the blank line that ends the headers,
    /// where the body starts.
    pub header_len: usize,
}

/// The request head of `buf`: UTF-8 text up to and including the blank
/// line, whose first line has at least a method and a target.
pub open spec fn head_of(b: Seq<u8>) -> Option<(Seq<char>, Seq<char>, Seq<(Seq<char>, Seq<char>)>, int)> {
    match head_end_of(b) {
        Some(e) => if valid_utf8(b.take(e)) {
            let lines = crlf_lines(decode_utf8(b.take(e)));
            let w = words(lines[0]);
            if w.len() >= 2 {
                Some((w[0], w[1], header_pairs(lines.skip(1)), e))
            } else {
                None
            }
        } else {
            None
        },
        None => None,
    }
}

fn header_line(line: &Vec<char>) -> (r: Option<(String, String)>)
    ensures
        match header_of(line@) {
            Some(h) => r is Some && r.unwrap().0@ == h.0 && r.unwrap().1@ == h.1,
            None => r is None,
        },
{
    let colon: Vec<char> = vec![':'];
    assert(colon@ =~= seq![':']);
    proof {
        lemma_find_from(line@, seq![':'], 0);
    }
    match find_sub(line, &colon) {
        Some(k) => {
            assert(find_seq(line@, seq![':']) == Some(k as int));
            assert(occurs_at(line@, seq![':'], k as int));
            assert(seq![':'].len() == 1);
            assert(k < line.len());
            let key = ascii_lower(&trim_ws_exec(&slice_chars(line, 0, k)));
            let val = trim_ws_exec(&slice_chars(line, k + 1, line.len()));
            assert(line@.subrange(0, k as int) == line@.take(k as int));
            assert(line@.subrange(k + 1, line@.len() as int) == line@.skip(k + 1));
            Some((string_of(&key), string_of(&val)))
        },
        None => None,
    }
}

pub fn parse_http_head(buf: &[u8]) -> (r: Option<HttpHead>)
    ensures
        match head_of(buf@) {
            Some((m, t, hs, n)) => r is Some && r.unwrap().method@ == m && r.unwrap().target@ == t
                && pair_views(r.unwrap().headers@) == hs && r.unwrap().header_len == n,
            None => r is None,
        },
{
    let e = match find_head_end(buf) {
        Some(e) => e,
        None => return None,
    };
    let n = buf.len();
    proof {
        lemma_blank_line_from(buf@, 0);
        let k = blank_line_from(buf@, 0).unwrap();
        assert(0 <= k + 4 <= n);
    }
    assert(head_end_of(buf@) == Some(e as int));
    let mut head_bytes: Vec<u8> = Vec::new();
    let mut i: usize = 0;
    while i < e
        invariant
            i <= e <= buf@.len(),
            head_bytes@ == buf@.take(i as int),
        decreases e - i,
    {
        head_bytes.push(buf[i]);
        assert(buf@.take(i as int + 1) == buf@.take(i as int).push(buf@[i as int]));
        i += 1;
    }
    let text = match utf8_text(head_bytes.as_slice()) {
        Some(t) => t,
        None => {
            assert(head_of(buf@) is None);
            return None;
        },
    };
    let lines = split_crlf(&chars_of(text.as_str()));
    assert(char_views(lines@).len() == lines@.len());
    let w = split_words(&lines[0]);
    assert(char_views(lines@)[0] == lines@[0]@);
    if w.len() < 2 {
        assert(head_of(buf@) is None);
        return None;
    }
    assert(char_views(w@)[0] == w@[0]@ && char_views(w@)[1] == w@[1]@);
    let method = string_of(&w[0]);
    let target = string_of(&w[1]);
    let mut headers: Vec<(String, String)> = Vec::new();
    let mut j: usize = 1;
    while j < lines.len()
        invariant
            1 <= j <= lines.len(),
            char_views(lines@) == crlf_lines(decode_utf8(buf@.take(e as int))),
            pair_views(headers@) == header_pairs(char_views(lines@).skip(1).take(j - 1)),
        decreases lines.len() - j,
    {
        assert(char_views(lines@).skip(1).take(j as int).drop_last() == char_views(lines@).skip(
            1,
        ).take(j - 1));
        assert(char_views(lines@).skip(1).take(j as int).last() == lines@[j as int]@);
        match header_line(&lines[j]) {
            Some(h) => {
                let ghost before = headers@;
                headers.push(h);
                assert(pair_views(headers@) =~= pair_views(before).push((h.0@, h.1@)));
            },
            None => {},
        }
        j += 1;
    }
    assert(char_views(lines@).skip(1).take(lines.len() - 1) == char_views(lines@).skip(1));
    Some(HttpHead { method, target, headers, header_len: e })
}

/// The value of the last pair whose key is `key`.
pub open spec fn last_value(ps: Seq<(Seq<char>, Seq<char>)>, key: Seq<char>) -> Option<Seq<char>>
    decreases ps.len(),
{
    if ps.len() == 0 {
        None
    } else if ps.last().0 == key {
        Some(ps.last().1)
    } else {
        last_value(ps.drop_last(), key)
    }
}

/// The value stored under `key`: the last pair with that key wins, as in a
/// map filled in order.
pub fn lookup(pairs: &Vec<(String, String)>, key: &str) -> (r: Option<String>)
    ensures
        match last_value(pair_views(pairs@), key@) {
            Some(v) => r is Some && r.unwrap()@ == v,
            None => r is None,
        },
{
    let k = chars_of(key);
    let mut i: usize = pairs.len();
    assert(pair_views(pairs@).take(pairs.len() as int) =~= pair_views(pairs@));
    while i > 0
        invariant
            i <= pairs.len(),
            k@ == key@,
            last_value(pair_views(pairs@), key@) == last_value(pair_views(pairs@).take(i as int), key@),
        decreases i,
    {
        assert(pair_views(pairs@).take(i as int).drop_last() == pair_views(pairs@).take(i - 1));
        if chars_eq(&chars_of(pairs[i - 1].0.as_str()), &k) {
            return Some(owned(pairs[i - 1].1.as_str()));
        }
        i -= 1;
    }
    None
}

/// A decimal digit.
pub open spec fn is_digit(c: char) -> bool {
    '0' <= c && c <= '9'
}

/// The value of a run of decimal digits.
pub open spec fn digits_value(d: Seq<char>) -> nat
    decreases d.len(),
{
    if d.len() == 0 {
        0
    } else {
        digits_value(d.drop_last()) * 10 + ((d.last() as int - 48) as nat)
    }
}

/// `usize::from_str`: an optional `+`, then at least one digit, and a value
/// that fits.
pub open spec fn unsigned_part(s: Seq<char>) -> Seq<char> {
    if s.len() > 0 && s[0] == '+' {
        s.drop_first()
    } else {
        s
    }
}

pub open spec fn all_digits(d: Seq<char>) -> bool {
    forall|i: int| 0 <= i < d.len() ==> is_digit(#[trigger] d[i])
}

pub open spec fn parsed_usize(s: Seq<char>) -> Option<nat> {
    let d = unsigned_part(s);
    if d.len() > 0 && all_digits(d) && digits_value(d) <= usize::MAX {
        Some(digits_value(d))
    } else {
        None
    }
}

pub fn parse_usize(s: &str) -> (r: Option<usize>)
    ensures
        match parsed_usize(s@) {
            Some(n) => r == Some(n as usize),
            None => r is None,
        },
{
    let v = chars_of(s);
    let start: usize = if v.len() > 0 && v[0] == '+' {
        1
    } else {
        0
    };
    let ghost d = if v@.len() > 0 && v@[0] == '+' {
        v@.drop_first()
    } else {
        v@
    };
    assert(d == v@.skip(start as int));
    if start == v.len() {
        assert(d.len() == 0);
        return None;
    }
    let mut val: usize = 0;
    let mut over = false;
    let mut i: usize = start;
    while i < v.len()
        invariant
            start <= i <= v.len(),
            v@ == s@,
            d == v@.skip(start as int),
            d == unsigned_part(s@),
            forall|k: int| 0 <= k < i - start ==> is_digit(#[trigger] d[k]),
            !over ==> val == digits_value(d.take(i - start)),
            over ==> digits_value(d.take(i - start)) > usize::MAX,
        decreases v.len() - i,
    {
        let c = v[i];
        assert(d[i - start] == c);
        if !('0' <= c && c <= '9') {
            assert(!is_digit(d[i - start]));
            assert(0 <= i - start < d.len());
            assert(!all_digits(d));
            return None;
        }
        let dig = ((c as u32) - 48) as usize;
        assert(d.take(i - start + 1).drop_last() == d.take(i - start));
        let ghost prev = digits_value(d.take(i - start));
        assert(digits_value(d.take(i - start + 1)) == prev * 10 + dig);
        if !over {
            if val > (usize::MAX - dig) / 10 {
                assert(val * 10 + dig > usize::MAX) by (nonlinear_arith)
                    requires
                        val > (usize::MAX - dig) / 10,
                        dig <= 9,
                ;
                over = true;
            } else {
                assert(val * 10 + dig <= usize::MAX) by (nonlinear_arith)
                    requires
                        val <= (usize::MAX - dig) / 10,
                        dig <= 9,
                ;
                val = val * 10 + dig;
            }
        }
        i += 1;
    }
    assert(d.take(v.len() - start) == d);
    if over {
        None
    } else {
        Some(val)
    }
}

/// The body length a request announces: its `content-length` header when
/// that parses, else 0.
pub open spec fn content_length_of(headers: Seq<(Seq<char>, Seq<char>)>) -> nat {
    match last_value(headers, "content-length"@) {
        Some(v) => match parsed_usize(v) {
            Some(n) => n,
            None => 0,
        },
        None => 0,
    }
}

pub fn content_length(headers: &Vec<(String, String)>) -> (n: usize)
    ensures
        n == content_length_of(pair_views(headers@)),
{
    match lookup(headers, "content-length") {
        Some(v) => match parse_usize(v.as_str()) {
            Some(n) => n,
            None => 0,
        },
        None => 0,
    }
}

/// The body the receiver hands on: from `header_len`, at most
/// `content_length` bytes of what was read.
pub fn request_body(buf: &[u8], header_len: usize, content_length: usize) -> (r: Vec<u8>)
    requires
        header_len <= buf@.len(),
    ensures
        r@ == buf@.subrange(
            header_len as int,
            header_len + if content_length < buf@.len() - header_len {
                content_length as int
            } else {
                buf@.len() - header_len
            },
        ),
{
    let avail = buf.len() - header_len;
    let n = if content_length < avail {
        content_length
    } else {
        avail
    };
    let mut r: Vec<u8> = Vec::new();
    let mut i: usize = 0;
    while i < n
        invariant
            i <= n <= avail,
            header_len <= buf@.len(),
            buf@.len() == buf.len(),
            avail == buf@.len() - header_len,
            r@ == buf@.subrange(header_len as int, header_len + i),
        decreases n - i,
    {
        r.push(buf[header_len + i]);
        assert(buf@.subrange(header_len as int, header_len + i + 1) == buf@.subrange(
            header_len as int,
            header_len + i,
        ).push(buf@[header_len + i]));
        i += 1;
    }
    r
}

/// The key and value of a query pair `key=value` (`split_once('=')`).
pub open spec fn query_pair(p: Seq<char>) -> Option<(Seq<char>, Seq<char>)> {
    match find_seq(p, seq!['=']) {
        Some(k) => Some((p.take(k), p.skip(k + 1))),
        None => None,
    }
}

pub open spec fn pairs_of(parts: Seq<Seq<char>>) -> Seq<(Seq<char>, Seq<char>)>
    decreases parts.len(),
{
    if parts.len() == 0 {
        seq![]
    } else {
        let r = pairs_of(parts.drop_last());
        match query_pair(parts.last()) {
            Some(q) => r.push(q),
            None => r,
        }
    }
}

/// The pairs of a request target's query, in order: the text after the
/// first `?`, split at `&`; pieces without `=` are skipped.
pub open spec fn query_pairs(target: Seq<char>) -> Seq<(Seq<char>, Seq<char>)> {
    match find_seq(target, seq!['?']) {
        Some(k) => pairs_of(split_seq(target.skip(k + 1), '&')),
        None => seq![],
    }
}

fn single(c: char) -> (v: Vec<char>)
    ensures
        v@ == seq![c],
{
    let v: Vec<char> = vec![c];
    assert(v@ =~= seq![c]);
    v
}

fn split_once_at(v: &Vec<char>, c: char) -> (r: Option<(Vec<char>, Vec<char>)>)
    ensures
        match find_seq(v@, seq![c]) {
            Some(k) => r is Some && r.unwrap().0@ == v@.take(k) && r.unwrap().1@ == v@.skip(k + 1),
            None => r is None,
        },
{
    proof {
        lemma_find_from(v@, seq![c], 0);
    }
    match find_sub(v, &single(c)) {
        Some(k) => {
            assert(occurs_at(v@, seq![c], k as int));
            assert(seq![c].len() == 1);
            assert(k < v.len());
            assert(v@.subrange(0, k as int) == v@.take(k as int));
            assert(v@.subrange(k + 1, v@.len() as int) == v@.skip(k + 1));
            Some((slice_chars(v, 0, k), slice_chars(v, k + 1, v.len())))
        },
        None => None,
    }
}

/// Query parameters of a request target (`?a=1&b=2`), in order; look one
/// up with `lookup`.
pub fn parse_query(target: &str) -> (r: Vec<(String, String)>)
    ensures
        pair_views(r@) == query_pairs(target@),
{
    let t = chars_of(target);
    let q = match split_once_at(&t, '?') {
        Some((_, q)) => q,
        None => return Vec::new(),
    };
    let parts = split_on(&q, '&');
    let ghost sv = split_seq(q@, '&');
    let mut out: Vec<(String, String)> = Vec::new();
    let mut i: usize = 0;
    while i < parts.len()
        invariant
            i <= parts.len() == sv.len(),
            forall|k: int| 0 <= k < parts.len() ==> #[trigger] parts[k]@ == sv[k],
            pair_views(out@) == pairs_of(sv.take(i as int)),
        decreases parts.len() - i,
    {
        assert(sv.take(i as int + 1).drop_last() == sv.take(i as int));
        match split_once_at(&parts[i], '=') {
            Some((k, v)) => {
                let ghost before = out@;
                out.push((string_of(&k), string_of(&v)));
                assert(pair_views(out@) =~= pair_views(before).push((k@, v@)));
            },
            None => {},
        }
        i += 1;
    }
    assert(sv.take(sv.len() as int) == sv);
    out
}

/// The path of a request target: the text before the first `?`.
pub open spec fn path_of(target: Seq<char>) -> Seq<char> {
    match find_seq(target, seq!['?']) {
        Some(k) => target.take(k),
        None => target,
    }
}

pub fn target_path(target: &str) -> (r: String)
    ensures
        r@ == path_of(target@),
{
    let t = chars_of(target);
    match split_once_at(&t, '?') {
        Some((p, _)) => string_of(&p),
        None => owned(target),
    }
}

/// The endpoint a request reaches.
#[derive(Debug, Clone, Copy, PartialEq, Eq, Structural)]
pub enum Route {
    Register,
    PrepareUpload,
    Upload,
    Cancel,
    Info,
    NotFound,
}

pub open spec fn route_of(method: Seq<char>, path: Seq<char>) -> Route {
    if method == "POST"@ && path == "/api/localsend/v2/register"@ {
        Route::Register
    } else if method == "POST"@ && path == "/api/localsend/v2/prepare-upload"@ {
        Route::PrepareUpload
    } else if method == "POST"@ && path == "/api/localsend/v2/upload"@ {
        Route::Upload
    } else if method == "POST"@ && path == "/api/localsend/v2/cancel"@ {
        Route::Cancel
    } else if method == "GET"@ && path == "/api/localsend/v2/info"@ {
        Route::Info
    } else {
        Route::NotFound
    }
}

pub fn route(method: &str, path: &str) -> (r: Route)
    ensures
        r == route_of(method@, path@),
{
    let post = str_is(method, "POST");
    if post && str_is(path, "/api/localsend/v2/register") {
        Route::Register
    } else if post && str_is(path, "/api/localsend/v2/prepare-upload") {
        Route::PrepareUpload
    } else if post && str_is(path, "/api/localsend/v2/upload") {
        Route::Upload
    } else if post && str_is(path, "/api/localsend/v2/cancel") {
        Route::Cancel
    } else if str_is(method, "GET") && str_is(path, "/api/localsend/v2/info") {
        Route::Info
    } else {
        Route::NotFound
    }
}

/// Status line and body answering an upload, by the outcome code.
pub fn upload_response(code: u16) -> (r: (u16, &'static str, &'static str))
    ensures
        code == 200 ==> r.0 == 200 && r.1@ == "OK"@ && r.2@ == ""@,
        code == 403 ==> r.0 == 403 && r.1@ == "Forbidden"@ && r.2@ == "invalid token"@,
        code == 409 ==> r.0 == 409 && r.1@ == "Conflict"@ && r.2@ == "blocked"@,
        code == 422 ==> r.0 == 422 && r.1@ == "Unprocessable"@ && r.2@ == "checksum mismatch"@,
        code != 200 && code != 403 && code != 409 && code != 422 ==> r.0 == 500 && r.1@
            == "Error"@ && r.2@ == "server error"@,
{
    if code == 200 {
        (200, "OK", "")
    } else if code == 403 {
        (403, "Forbidden", "invalid token")
    } else if code == 409 {
        (409, "Conflict", "blocked")
    } else if code == 422 {
        (422, "Unprocessable", "checksum mismatch")
    } else {
        (500, "Error", "server error")
    }
}

// ── Transfer sessions of the receiver ───────────────────────────────────────

/// A file that a transfer session may upload, with the token granted for it.
#[derive(Debug, Clone)]
pub struct FileGrant {
    pub file_id: String,
    pub token: String,
    pub name: String,
    /// Announced size; 0 when unknown.
    pub size: u64,
    /// Announced SHA-256, lower-case hex.
    pub sha256: Option<String>,
}

pub open spec fn same_grant(a: FileGrant, b: FileGrant) -> bool {
    &&& a.file_id@ == b.file_id@
    &&& a.token@ == b.token@
    &&& a.name@ == b.name@
    &&& a.size == b.size
    &&& match (a.sha256, b.sha256) {
        (Some(x), Some(y)) => x@ == y@,
        (None, None) => true,
        _ => false,
    }
}

/// The transfer sessions the receiver accepted, by session id; a later
/// session under an id replaces an earlier one, as in a map.
#[derive(Debug, Clone)]
pub struct UploadSessions {
    pub sessions: Vec<(String, Vec<FileGrant>)>,
}

/// The files of the session `sid`: the last one recorded under that id.
pub open spec fn session_files(ss: Seq<(String, Vec<FileGrant>)>, sid: Seq<char>) -> Option<Seq<FileGrant>>
    decreases ss.len(),
{
    if ss.len() == 0 {
        None
    } else if ss.last().0@ == sid {
        Some(ss.last().1@)
    } else {
        session_files(ss.drop_last(), sid)
    }
}

/// The grant of file `fid`: the last one recorded under that id.
pub open spec fn grant_of(fs: Seq<FileGrant>, fid: Seq<char>) -> Option<FileGrant>
    decreases fs.len(),
{
    if fs.len() == 0 {
        None
    } else if fs.last().file_id@ == fid {
        Some(fs.last())
    } else {
        grant_of(fs.drop_last(), fid)
    }
}

/// The sessions without those recorded under `sid`.
pub open spec fn without(ss: Seq<(String, Vec<FileGrant>)>, sid: Seq<char>) -> Seq<(String, Vec<FileGrant>)>
    decreases ss.len(),
{
    if ss.len() == 0 {
        ss
    } else {
        let r = without(ss.drop_last(), sid);
        if ss.last().0@ == sid {
            r
        } else {
            r.push(ss.last())
        }
    }
}

/// What an upload request is answered before its body is stored: the grant
/// it may store, or the refusal code (400 when a parameter is missing or the
/// size differs from an announced one, 403 for an unknown session or file
/// or a wrong token).
pub open spec fn upload_check(ss: Seq<(String, Vec<FileGrant>)>, q: Seq<(Seq<char>, Seq<char>)>, body_len: nat) -> Result<FileGrant, u16> {
    match (last_value(q, "sessionId"@), last_value(q, "fileId"@), last_value(q, "token"@)) {
        (Some(sid), Some(fid), Some(tok)) => match session_files(ss, sid) {
            None => Err(403u16),
            Some(fs) => match grant_of(fs, fid) {
                None => Err(403u16),
                Some(g) => if g.token@ != tok {
                    Err(403u16)
                } else if body_len != g.size && g.size > 0 {
                    Err(400u16)
                } else {
                    Ok(g)
                },
            },
        },
        _ => Err(400u16),
    }
}

fn copy_grant(g: &FileGrant) -> (r: FileGrant)
    ensures
        same_grant(r, *g),
{
    FileGrant {
        file_id: owned(g.file_id.as_str()),
        token: owned(g.token.as_str()),
        name: owned(g.name.as_str()),
        size: g.size,
        sha256: match &g.sha256 {
            Some(h) => Some(owned(h.as_str())),
            None => None,
        },
    }
}

/// Where the session `sid` is recorded last.
fn find_session(ss: &Vec<(String, Vec<FileGrant>)>, sid: &str) -> (r: Option<usize>)
    ensures
        match session_files(ss@, sid@) {
            Some(fs) => r matches Some(i) && i < ss@.len() && ss@[i as int].1@ == fs,
            None => r is None,
        },
{
    let sk = chars_of(sid);
    let mut i: usize = ss.len();
    assert(ss@.take(i as int) == ss@);
    while i > 0
        invariant
            i <= ss@.len(),
            sk@ == sid@,
            session_files(ss@, sid@) == session_files(ss@.take(i as int), sid@),
        decreases i,
    {
        assert(ss@.take(i as int).drop_last() == ss@.take(i - 1));
        if chars_eq(&chars_of(ss[i - 1].0.as_str()), &sk) {
            return Some(i - 1);
        }
        i -= 1;
    }
    None
}

/// Where the grant of file `fid` is recorded last.
fn find_grant(fs: &Vec<FileGrant>, fid: &str) -> (r: Option<usize>)
    ensures
        match grant_of(fs@, fid@) {
            Some(g) => r matches Some(j) && j < fs@.len() && fs@[j as int] == g,
            None => r is None,
        },
{
    let fk = chars_of(fid);
    let mut j: usize = fs.len();
    assert(fs@.take(j as int) == fs@);
    while j > 0
        invariant
            j <= fs@.len(),
            fk@ == fid@,
            grant_of(fs@, fid@) == grant_of(fs@.take(j as int), fid@),
        decreases j,
    {
        assert(fs@.take(j as int).drop_last() == fs@.take(j - 1));
        if chars_eq(&chars_of(fs[j - 1].file_id.as_str()), &fk) {
            return Some(j - 1);
        }
        j -= 1;
    }
    None
}

impl UploadSessions {
    pub fn new() -> (s: Self)
        ensures
            s.sessions@.len() == 0,
    {
        UploadSessions { sessions: Vec::new() }
    }

    /// Records an accepted session and the files granted in it.
    pub fn insert_session(&mut self, sid: String, files: Vec<FileGrant>)
        ensures
            final(self).sessions@ == old(self).sessions@.push((sid, files)),
    {
        self.sessions.push((sid, files));
    }

    /// Forgets the session `sid` (a cancelled transfer).
    pub fn cancel(&mut self, sid: &str)
        ensures
            final(self).sessions@ == without(old(self).sessions@, sid@),
    {
        let k = chars_of(sid);
        let mut kept: Vec<(String, Vec<FileGrant>)> = Vec::new();
        let ghost old_ss = self.sessions@;
        let mut rest: Vec<(String, Vec<FileGrant>)> = Vec::new();
        std::mem::swap(&mut rest, &mut self.sessions);
        assert(old_ss.len() == rest.len());
        let mut i: usize = 0;
        while rest.len() > 0
            invariant
                k@ == sid@,
                old_ss.len() <= usize::MAX,
                i + rest@.len() == old_ss.len(),
                rest@ == old_ss.skip(i as int),
                kept@ == without(old_ss.take(i as int), sid@),
            decreases rest@.len(),
        {
            let e = rest.remove(0);
            assert(old_ss.take(i as int + 1).drop_last() == old_ss.take(i as int));
            assert(e == old_ss[i as int]);
            assert(old_ss.skip(i as int).remove(0) == old_ss.skip(i as int + 1));
            if !chars_eq(&chars_of(e.0.as_str()), &k) {
                kept.push(e);
            }
            i += 1;
        }
        assert(old_ss.take(old_ss.len() as int) == old_ss);
        self.sessions = kept;
    }

    /// Checks an upload request against the granted sessions.
    pub fn check_upload(&self, query: &Vec<(String, String)>, body_len: usize) -> (r: Result<FileGrant, u16>)
        ensures
            match upload_check(self.sessions@, pair_views(query@), body_len as nat) {
                Ok(g) => r matches Ok(h) && same_grant(h, g),
                Err(c) => r == Err::<FileGrant, u16>(c),
            },
    {
        let sid = match lookup(query, "sessionId") {
            Some(v) => v,
            None => return Err(400),
        };
        let fid = match lookup(query, "fileId") {
            Some(v) => v,
            None => return Err(400),
        };
        let tok = match lookup(query, "token") {
            Some(v) => v,
            None => return Err(400),
        };
        let i = match find_session(&self.sessions, sid.as_str()) {
            Some(i) => i,
            None => return Err(403),
        };
        let files = &self.sessions[i].1;
        let j = match find_grant(files, fid.as_str()) {
            Some(j) => j,
            None => return Err(403),
        };
        let g = &files[j];
        if !chars_eq(&chars_of(g.token.as_str()), &chars_of(tok.as_str())) {
            return Err(403);
        }
        if body_len as u64 != g.size && g.size > 0 {
            return Err(400);
        }
        Ok(copy_grant(g))
    }
}

/// The answer once the body is stored: 422 when an announced SHA-256 does
/// not match the body's, else 200.
pub open spec fn checksum_code(expected: Option<Seq<char>>, body: Seq<u8>) -> u16 {
    match expected {
        Some(e) => if e == hex_lower(sha256(body)) {
            200
        } else {
            422
        },
        None => 200,
    }
}

pub fn checksum_verdict(expected: &Option<String>, body: &[u8]) -> (c: u16)
    ensures
        c == checksum_code(
            match expected {
                Some(e) => Some(e@),
                None => None,
            },
            body@,
        ),
{
    match expected {
        Some(e) => {
            let got = hex_lower_exec(&sha256_digest(body));
            if chars_eq(&chars_of(e.as_str()), &got) {
                200
            } else {
                422
            }
        },
        None => 200,
    }
}

/// A file announced in a session and sent with the session's id, the
/// file's id, the granted token and the announced size (or any size when
/// none was announced) is accepted, with that file's grant.
pub proof fn law_granted_upload_accepted(
    ss: Seq<(String, Vec<FileGrant>)>,
    sid: String,
    files: Vec<FileGrant>,
    q: Seq<(Seq<char>, Seq<char>)>,
    body_len: nat,
)
    requires
        last_value(q, "sessionId"@) == Some(sid@),
        last_value(q, "fileId"@) matches Some(fid) && grant_of(files@, fid) matches Some(g) && last_value(
            q,
            "token"@,
        ) == Some(g.token@) && (g.size == 0 || body_len == g.size),
    ensures
        upload_check(ss.push((sid, files)), q, body_len) == Ok::<FileGrant, u16>(
            grant_of(files@, last_value(q, "fileId"@).unwrap()).unwrap(),
        ),
{
    assert(ss.push((sid, files)).drop_last() == ss);
}

/// An upload whose token is not the one granted to the file is refused.
pub proof fn law_wrong_token_refused(
    ss: Seq<(String, Vec<FileGrant>)>,
    q: Seq<(Seq<char>, Seq<char>)>,
    body_len: nat,
)
    requires
        last_value(q, "sessionId"@) matches Some(sid) && session_files(ss, sid) matches Some(fs)
            && last_value(q, "fileId"@) matches Some(fid) && grant_of(fs, fid) matches Some(g)
            && last_value(q, "token"@) matches Some(t) && t != g.token@,
    ensures
        upload_check(ss, q, body_len) == Err::<FileGrant, u16>(403),
{
}

proof fn lemma_without(ss: Seq<(String, Vec<FileGrant>)>, sid: Seq<char>, k: Seq<char>)
    ensures
        session_files(without(ss, sid), k) == if k == sid {
            None
        } else {
            session_files(ss, k)
        },
    decreases ss.len(),
{
    if ss.len() > 0 {
        lemma_without(ss.drop_last(), sid, k);
        let r = without(ss.drop_last(), sid);
        if ss.last().0@ != sid {
            assert(without(ss, sid).drop_last() == r);
        }
    }
}

/// After a session is cancelled, no upload to it is accepted; the other
/// sessions are untouched.
pub proof fn law_cancel_revokes(
    ss: Seq<(String, Vec<FileGrant>)>,
    sid: Seq<char>,
    q: Seq<(Seq<char>, Seq<char>)>,
    body_len: nat,
    other: Seq<char>,
)
    requires
        last_value(q, "sessionId"@) == Some(sid),
    ensures
        upload_check(without(ss, sid), q, body_len) is Err,
        other != sid ==> session_files(without(ss, sid), other) == session_files(ss, other),
{
    lemma_without(ss, sid, sid);
    lemma_without(ss, sid, other);
}

// ── Receiver state, URLs and reports ────────────────────────────────────────

/// Whether the receiver runs, and how many files it stored.
#[derive(Debug, Clone, Copy, PartialEq, Eq, Structural)]
pub struct ReceiverState {
    pub running: bool,
    pub received_count: u64,
}

impl ReceiverState {
    pub fn new() -> (s: Self)
        ensures
            !s.running && s.received_count == 0,
    {
        ReceiverState { running: false, received_count: 0 }
    }
}

/// Receiver status surfaced to the user interface.
#[derive(Debug, Clone, Copy, PartialEq, Eq, Structural)]
pub struct ReceiverStatus {
    pub running: bool,
    pub port: u16,
    pub received_count: u64,
}

/// Stops the receiver: the accept loop exits at its next check.
pub fn stop_receiver(state: &mut ReceiverState)
    ensures
        *final(state) == (ReceiverState { running: false, ..*old(state) }),
{
    state.running = false;
}

pub fn receiver_status(state: &ReceiverState) -> (s: ReceiverStatus)
    ensures
        s == (ReceiverStatus { running: state.running, port: LS_PORT, received_count: state.received_count }),
{
    ReceiverStatus { running: state.running, port: LS_PORT, received_count: state.received_count }
}

/// Counts one stored file (the counter wraps, as an atomic add does).
pub fn note_received(state: &mut ReceiverState)
    ensures
        final(state).running == old(state).running,
        final(state).received_count == if old(state).received_count == u64::MAX {
            0
        } else {
            (old(state).received_count + 1) as u64
        },
{
    state.received_count = if state.received_count == u64::MAX {
        0
    } else {
        state.received_count + 1
    };
}

/// Meta of a single outgoing file.
#[derive(Debug, Clone)]
pub struct LocalSendFile {
    pub id: String,
    pub name: String,
    pub size: u64,
    pub file_type: String,
    pub sha256: String,
}

/// Result of a completed send session.
#[derive(Debug, Clone)]
pub struct SendReport {
    pub session_id: String,
    /// Names of the sent files, in order.
    pub files: Vec<String>,
    pub total_bytes: u64,
}

/// A transfer needs at least one file.
pub fn check_selection(paths: &Vec<String>) -> (r: Result<(), String>)
    ensures
        paths.len() == 0 ==> (r matches Err(m) && m@ == "No files selected"@),
        paths.len() > 0 ==> r is Ok,
{
    if paths.len() == 0 {
        Err(owned("No files selected"))
    } else {
        Ok(())
    }
}

/// Records one uploaded file in the report.
pub fn record_sent(report: &mut SendReport, name: String, size: u64)
    requires
        old(report).total_bytes + size <= u64::MAX,
    ensures
        final(report).session_id == old(report).session_id,
        final(report).files@ == old(report).files@.push(name),
        final(report).total_bytes == old(report).total_bytes + size,
{
    report.files.push(name);
    report.total_bytes = report.total_bytes + size;
}

pub fn prepare_url(base: &str) -> (r: String)
    ensures
        r@ == base@ + "/api/localsend/v2/prepare-upload"@,
{
    let mut v = chars_of(base);
    append_str(&mut v, "/api/localsend/v2/prepare-upload");
    string_of(&v)
}

pub fn upload_url(base: &str, session_id: &str, file_id: &str, token: &str) -> (r: String)
    ensures
        r@ == base@ + "/api/localsend/v2/upload?sessionId="@ + session_id@ + "&fileId="@ + file_id@
            + "&token="@ + token@,
{
    let mut v = chars_of(base);
    append_str(&mut v, "/api/localsend/v2/upload?sessionId=");
    append_str(&mut v, session_id);
    append_str(&mut v, "&fileId=");
    append_str(&mut v, file_id);
    append_str(&mut v, "&token=");
    append_str(&mut v, token);
    string_of(&v)
}

} // verus!
