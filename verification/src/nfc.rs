//! NFC pairing: single-record NDEF encoding and decoding (well-known TEXT
//! and URI records), custom tag payloads and the pairing guidance.
use vstd::prelude::*;
use vstd::utf8::encode_utf8;
use base64::Engine;
use crate::json::{json_quote, json_quoted};
use crate::text::{
    append_bytes, append_chars, append_str, chars_of, find_seq, lower_seq, ascii_lower,
    find_sub, string_of, trim_ws, trim_ws_exec,
};

verus! {

/// NDEF type name format "well known".
pub const TNF_WELL_KNOWN: u8 = 0x01;

/// Language tag of encoded text records ("en").
pub const DEFAULT_LANG: &'static str = "en";

/// Longest text, in UTF-8 bytes, that a custom text tag may carry.
pub const MAX_TAG_TEXT_BYTES: usize = 300;

/// A single NDEF record.
#[derive(Debug, Clone, PartialEq, Eq)]
pub struct NdefRecord {
    pub tnf: u8,
    /// The record type (`T` for text, `U` for URI).
    pub record_type: Vec<u8>,
    pub payload: Vec<u8>,
}

/// RTD "T".
pub open spec fn rtd_text() -> Seq<u8> {
    seq![0x54u8]
}

/// RTD "U".
pub open spec fn rtd_uri() -> Seq<u8> {
    seq![0x55u8]
}

/// Payload of a text record: status byte (language length 2), "en", the
/// UTF-8 text.
pub open spec fn text_payload(text: Seq<char>) -> Seq<u8> {
    seq![2u8, 0x65u8, 0x6eu8] + encode_utf8(text)
}

/// Payload of a URI record: no abbreviation prefix, then the UTF-8 URI.
pub open spec fn uri_payload(uri: Seq<char>) -> Seq<u8> {
    seq![0u8] + encode_utf8(uri)
}

/// Record header: message begin and message end set, the TNF in the low bits.
pub open spec fn header_byte(tnf: u8) -> u8 {
    0xC0u8 | (tnf & 0x07u8)
}

/// The payload-length field: one byte below 255; from 255 on, `0xFF` (the
/// long-form marker) and the length (taken modulo 2^16) as two big-endian
/// bytes, so that a length byte never reads as the marker.
pub open spec fn length_field(len: nat) -> Seq<u8> {
    let l = len % 65536;
    if l >= 255 {
        seq![0xFFu8, (l / 256) as u8, (l % 256) as u8]
    } else {
        seq![l as u8]
    }
}

/// The bytes of a single-record message.
pub open spec fn encode_spec(tnf: u8, rtype: Seq<u8>, payload: Seq<u8>) -> Seq<u8> {
    seq![header_byte(tnf), (rtype.len() % 256) as u8] + length_field(payload.len()) + rtype
        + payload
}

/// What a single-record message decodes to: the TNF, type and payload.
pub open spec fn decode_spec(b: Seq<u8>) -> Option<(u8, Seq<u8>, Seq<u8>)> {
    if b.len() < 3 {
        None
    } else if (b[0] & 0x80u8) == 0 || (b[0] & 0x40u8) == 0 {
        None
    } else {
        let type_len = b[1] as int;
        let short = b[2] != 0xFFu8;
        if !short && b.len() < 5 {
            None
        } else {
            let payload_len: int = if short {
                b[2] as int
            } else {
                b[3] as int * 256 + b[4] as int
            };
            let type_start: int = if short {
                3
            } else {
                5
            };
            let type_end = type_start + type_len;
            if type_end > b.len() || type_end + payload_len != b.len() {
                None
            } else {
                Some((b[0] & 0x07u8, b.subrange(type_start, type_end), b.subrange(type_end, b.len() as int)))
            }
        }
    }
}

impl NdefRecord {
    pub open spec fn parts(&self) -> (u8, Seq<u8>, Seq<u8>) {
        (self.tnf, self.record_type@, self.payload@)
    }

    /// An RTD_TEXT record for `text`.
    pub fn text(text: &str) -> (r: Self)
        ensures
            r.tnf == TNF_WELL_KNOWN,
            r.record_type@ == rtd_text(),
            r.payload@ == text_payload(text@),
    {
        let mut payload: Vec<u8> = Vec::new();
        payload.push(2);
        payload.push(0x65);
        payload.push(0x6e);
        append_bytes(&mut payload, text.as_bytes());
        NdefRecord { tnf: TNF_WELL_KNOWN, record_type: vec![0x54u8], payload }
    }

    /// An RTD_URI record for `uri`.
    pub fn uri(uri: &str) -> (r: Self)
        ensures
            r.tnf == TNF_WELL_KNOWN,
            r.record_type@ == rtd_uri(),
            r.payload@ == uri_payload(uri@),
    {
        let mut payload: Vec<u8> = Vec::new();
        payload.push(0);
        append_bytes(&mut payload, uri.as_bytes());
        NdefRecord { tnf: TNF_WELL_KNOWN, record_type: vec![0x55u8], payload }
    }

    /// The record as a single-record NDEF message.
    pub fn encode(&self) -> (out: Vec<u8>)
        ensures
            out@ == encode_spec(self.tnf, self.record_type@, self.payload@),
    {
        let mut out: Vec<u8> = Vec::new();
        out.push(0xC0u8 | (self.tnf & 0x07u8));
        out.push((self.record_type.len() % 256) as u8);
        let l: usize = self.payload.len() % 65536;
        if l >= 255 {
            out.push(0xFF);
            out.push((l / 256) as u8);
            out.push((l % 256) as u8);
        } else {
            out.push(l as u8);
        }
        proof {
            assert(out@ == seq![header_byte(self.tnf), (self.record_type@.len() % 256) as u8]
                + length_field(self.payload@.len()));
        }
        append_bytes(&mut out, self.record_type.as_slice());
        append_bytes(&mut out, self.payload.as_slice());
        out
    }

    /// Decodes a single-record message; `None` for anything else.
    pub fn decode_single(bytes: &[u8]) -> (r: Option<Self>)
        ensures
            match decode_spec(bytes@) {
                Some(p) => r matches Some(x) && x.parts() == p,
                None => r is None,
            },
    {
        if bytes.len() < 3 {
            return None;
        }
        let header = bytes[0];
        if (header & 0x80u8) == 0 || (header & 0x40u8) == 0 {
            return None;
        }
        let type_len = bytes[1] as usize;
        let short = bytes[2] != 0xFFu8;
        if !short && bytes.len() < 5 {
            return None;
        }
        let payload_len: usize = if short {
            bytes[2] as usize
        } else {
            bytes[3] as usize * 256 + bytes[4] as usize
        };
        let type_start: usize = if short {
            3
        } else {
            5
        };
        let type_end = type_start + type_len;
        if type_end > bytes.len() || payload_len != bytes.len() - type_end {
            return None;
        }
        let mut rtype: Vec<u8> = Vec::new();
        let mut i: usize = type_start;
        while i < type_end
            invariant
                type_start <= i <= type_end <= bytes.len(),
                rtype@ == bytes@.subrange(type_start as int, i as int),
            decreases type_end - i,
        {
            rtype.push(bytes[i]);
            assert(bytes@.subrange(type_start as int, i + 1) == bytes@.subrange(
                type_start as int,
                i as int,
            ).push(bytes@[i as int]));
            i += 1;
        }
        let mut payload: Vec<u8> = Vec::new();
        let mut j: usize = type_end;
        while j < bytes.len()
            invariant
                type_end <= j <= bytes.len(),
                payload@ == bytes@.subrange(type_end as int, j as int),
            decreases bytes.len() - j,
        {
            payload.push(bytes[j]);
            assert(bytes@.subrange(type_end as int, j + 1) == bytes@.subrange(
                type_end as int,
                j as int,
            ).push(bytes@[j as int]));
            j += 1;
        }
        Some(NdefRecord { tnf: header & 0x07u8, record_type: rtype, payload })
    }
}

/// Decoding an encoded record gives the record back, for every record whose
/// TNF fits in three bits, whose type fits the one-byte length and whose
/// payload fits the two-byte length field.
pub proof fn law_ndef_roundtrip(tnf: u8, rtype: Seq<u8>, payload: Seq<u8>)
    requires
        tnf < 8,
        rtype.len() <= 255,
        payload.len() <= 65535,
    ensures
        decode_spec(encode_spec(tnf, rtype, payload)) == Some((tnf, rtype, payload)),
{
    let b = encode_spec(tnf, rtype, payload);
    let h = header_byte(tnf);
    assert(h & 0x80u8 != 0 && h & 0x40u8 != 0 && h & 0x07u8 == tnf) by (bit_vector)
        requires
            h == 0xC0u8 | (tnf & 0x07u8),
            tnf < 8,
    ;
    let l = payload.len() as int;
    let lf = length_field(payload.len());
    assert(b[0] == h);
    assert(b[1] == rtype.len() as u8);
    if l >= 255 {
        assert(lf.len() == 3);
        assert(b[2] == 0xFFu8);
        assert(b[3] as int * 256 + b[4] as int == l);
        assert(b.subrange(5, 5 + rtype.len() as int) == rtype);
        assert(b.subrange(5 + rtype.len() as int, b.len() as int) == payload);
    } else {
        assert(lf.len() == 1);
        assert(b[2] == l as u8);
        assert(b.subrange(3, 3 + rtype.len() as int) == rtype);
        assert(b.subrange(3 + rtype.len() as int, b.len() as int) == payload);
    }
}

// ── Handshake ───────────────────────────────────────────────────────────────

/// Pairing handshake payload written to an NDEF text tag.
#[derive(Debug, Clone, PartialEq, Eq)]
pub struct NfcHandshake {
    /// Protocol/version tag, e.g. `micontrol-pair/v1`.
    pub schema: String,
    /// The URI to deep-link on the phone.
    pub pair_uri: String,
    /// Human-readable PC name.
    pub display_name: String,
    /// Optional device fingerprint.
    pub fingerprint: Option<String>,
}

/// The handshake as a JSON object with camel-case keys; `fingerprint` is left
/// out when absent.
pub open spec fn handshake_json(
    schema: Seq<char>,
    pair_uri: Seq<char>,
    display_name: Seq<char>,
    fingerprint: Option<Seq<char>>,
) -> Seq<char> {
    "{\"schema\":"@ + json_quoted(schema) + ",\"pairUri\":"@ + json_quoted(pair_uri)
        + ",\"displayName\":"@ + json_quoted(display_name) + match fingerprint {
        Some(f) => ",\"fingerprint\":"@ + json_quoted(f),
        None => Seq::<char>::empty(),
    } + "}"@
}

pub open spec fn opt_view(o: Option<String>) -> Option<Seq<char>> {
    match o {
        Some(s) => Some(s@),
        None => None,
    }
}

fn append_quoted(out: &mut Vec<char>, s: &str)
    ensures
        final(out)@ == old(out)@ + json_quoted(s@),
{
    match json_quote(s) {
        Ok(j) => append_str(out, j.as_str()),
        Err(e) => append_str(out, e.as_str()),
    }
}

impl NfcHandshake {
    /// The handshake as portable JSON.
    pub fn to_json(&self) -> (r: Result<String, String>)
        ensures
            r matches Ok(j) && j@ == handshake_json(
                self.schema@,
                self.pair_uri@,
                self.display_name@,
                opt_view(self.fingerprint),
            ),
    {
        let mut out: Vec<char> = Vec::new();
        append_str(&mut out, "{\"schema\":");
        append_quoted(&mut out, self.schema.as_str());
        append_str(&mut out, ",\"pairUri\":");
        append_quoted(&mut out, self.pair_uri.as_str());
        append_str(&mut out, ",\"displayName\":");
        append_quoted(&mut out, self.display_name.as_str());
        let ghost before_fp = out@;
        match &self.fingerprint {
            Some(f) => {
                append_str(&mut out, ",\"fingerprint\":");
                append_quoted(&mut out, f.as_str());
            },
            None => {},
        }
        append_str(&mut out, "}");
        proof {
            match &self.fingerprint {
                Some(f) => {
                    assert(out@ == before_fp + (",\"fingerprint\":"@ + json_quoted(f@)) + "}"@);
                },
                None => {
                    assert(out@ == before_fp + Seq::<char>::empty() + "}"@);
                },
            }
        }
        Ok(string_of(&out))
    }
}

/// The NDEF text record carrying `handshake` as JSON.
pub fn build_handshake_record(handshake: &NfcHandshake) -> (r: Result<NdefRecord, String>)
    ensures
        r matches Ok(rec) && rec.tnf == TNF_WELL_KNOWN && rec.record_type@ == rtd_text()
            && rec.payload@ == text_payload(
            handshake_json(
                handshake.schema@,
                handshake.pair_uri@,
                handshake.display_name@,
                opt_view(handshake.fingerprint),
            ),
        ),
{
    match handshake.to_json() {
        Ok(j) => Ok(NdefRecord::text(j.as_str())),
        Err(e) => Err(e),
    }
}

// ── Base64 ──────────────────────────────────────────────────────────────────

/// The character of a six-bit value in the standard base64 alphabet.
pub open spec fn b64_char(v: int) -> char {
    if v < 26 {
        (v + 65) as char
    } else if v < 52 {
        (v - 26 + 97) as char
    } else if v < 62 {
        (v - 52 + 48) as char
    } else if v == 62 {
        '+'
    } else {
        '/'
    }
}

/// What the `base64` crate's standard engine writes for `bytes`: each group
/// of three bytes as four characters of the standard alphabet, a final group
/// of one or two bytes padded with `=` to four characters.
pub closed spec fn base64_standard(bytes: Seq<u8>) -> Seq<char>
    decreases bytes.len(),
{
    if bytes.len() == 0 {
        Seq::empty()
    } else if bytes.len() == 1 {
        let b0 = bytes[0] as int;
        seq![b64_char(b0 / 4), b64_char((b0 % 4) * 16), '=', '=']
    } else if bytes.len() == 2 {
        let (b0, b1) = (bytes[0] as int, bytes[1] as int);
        seq![b64_char(b0 / 4), b64_char((b0 % 4) * 16 + b1 / 16), b64_char((b1 % 16) * 4), '=']
    } else {
        let (b0, b1, b2) = (bytes[0] as int, bytes[1] as int, bytes[2] as int);
        seq![
            b64_char(b0 / 4),
            b64_char((b0 % 4) * 16 + b1 / 16),
            b64_char((b1 % 16) * 4 + b2 / 64),
            b64_char(b2 % 64),
        ] + base64_standard(bytes.skip(3))
    }
}

/// `base64::engine::general_purpose::STANDARD.encode`.
#[verifier::external_body]
fn base64_encode(bytes: &[u8]) -> (r: String)
    ensures
        r@ == base64_standard(bytes@),
{
    base64::engine::general_purpose::STANDARD.encode(bytes)
}

// ── Custom tags ─────────────────────────────────────────────────────────────

/// What kind of NFC tag content the user wants to program.
#[derive(Debug, Clone, Copy, PartialEq, Eq, Structural)]
pub enum NfcTagKind {
    /// Phone Link pairing handshake.
    PairHandshake,
    /// Open a URI (web URL or app deep link).
    Uri,
    /// Free-form text.
    Text,
    /// MiControl internal action (`micontrol://action/..`).
    InternalAction,
}

/// A user-requested NFC tag payload.
#[derive(Debug, Clone, PartialEq, Eq)]
pub struct NfcCustomRequest {
    pub kind: NfcTagKind,
    /// The URL, the text, or the action name.
    pub target: String,
}

/// Result of building a custom tag.
#[derive(Debug, Clone, PartialEq, Eq)]
pub struct NfcCustomResult {
    /// Base64 of the NDEF message to write to the tag.
    pub ndef_b64: String,
    /// What the tag will do when read.
    pub description: String,
    /// `uri` or `text`.
    pub record_type: String,
}

/// The actions a MiControl tag may trigger.
pub open spec fn allowed_action(a: Seq<char>) -> bool {
    a == "lock"@ || a == "unlock"@ || a == "presence"@ || a == "status"@
}

/// The outcome of a custom-tag request, stated over the text of its target:
/// `Ok((ndef, description, record type))` or `Err(message)`.
pub open spec fn custom_tag_spec(kind: NfcTagKind, target: Seq<char>) -> Result<
    (Seq<u8>, Seq<char>, Seq<char>),
    Seq<char>,
> {
    match kind {
        NfcTagKind::PairHandshake => Err("use nfc_guidance for pairing"@),
        NfcTagKind::Uri => {
            let uri = trim_ws(target);
            if uri.len() == 0 {
                Err("URI target must not be empty"@)
            } else if find_seq(uri, seq![':']) is None {
                Err("URI must include a scheme (e.g. https:// or app://)"@)
            } else {
                Ok(
                    (
                        encode_spec(TNF_WELL_KNOWN, rtd_uri(), uri_payload(uri)),
                        "Open "@ + uri + " when the tag is tapped"@,
                        "uri"@,
                    ),
                )
            }
        },
        NfcTagKind::Text => {
            let txt = trim_ws(target);
            if txt.len() == 0 {
                Err("text must not be empty"@)
            } else if encode_utf8(txt).len() > MAX_TAG_TEXT_BYTES {
                Err("text is too long for an NFC tag (max 300 chars)"@)
            } else {
                Ok(
                    (
                        encode_spec(TNF_WELL_KNOWN, rtd_text(), text_payload(txt)),
                        "Show text: "@ + txt,
                        "text"@,
                    ),
                )
            }
        },
        NfcTagKind::InternalAction => {
            let action = lower_seq(trim_ws(target));
            if !allowed_action(action) {
                Err(
                    "Unknown action '"@ + action + "'. Allowed: lock, unlock, presence, status"@,
                )
            } else {
                Ok(
                    (
                        encode_spec(
                            TNF_WELL_KNOWN,
                            rtd_uri(),
                            uri_payload("micontrol://action/"@ + action),
                        ),
                        "Trigger MiControl action: "@ + action,
                        "uri"@,
                    ),
                )
            }
        },
    }
}

/// A MiControl action tag is built exactly for the four actions lock,
/// unlock, presence and status, named in any case and with surrounding
/// whitespace: it is a URI record for `micontrol://action/<action>` (the
/// name lower-cased and trimmed). Any other name is refused.
pub proof fn law_internal_actions(target: Seq<char>)
    ensures
        ({
            let a = lower_seq(trim_ws(target));
            &&& (a == "lock"@ || a == "unlock"@ || a == "presence"@ || a == "status"@)
                <==> custom_tag_spec(NfcTagKind::InternalAction, target) is Ok
            &&& (a == "lock"@ || a == "unlock"@ || a == "presence"@ || a == "status"@)
                ==> custom_tag_spec(NfcTagKind::InternalAction, target) == Ok::<
                (Seq<u8>, Seq<char>, Seq<char>),
                Seq<char>,
            >(
                (
                    encode_spec(
                        TNF_WELL_KNOWN,
                        seq![0x55u8],
                        seq![0u8] + encode_utf8("micontrol://action/"@ + a),
                    ),
                    "Trigger MiControl action: "@ + a,
                    "uri"@,
                ),
            )
        }),
{
}

fn str_of(s: &str) -> (r: String)
    ensures
        r@ == s@,
{
    string_of(&chars_of(s))
}

fn concat_str(a: &str, b: &Vec<char>, c: &str) -> (r: String)
    ensures
        r@ == a@ + b@ + c@,
{
    let mut v = chars_of(a);
    append_chars(&mut v, b);
    append_str(&mut v, c);
    string_of(&v)
}

fn prefix_str(a: &str, b: &Vec<char>) -> (r: String)
    ensures
        r@ == a@ + b@,
{
    let mut v = chars_of(a);
    append_chars(&mut v, b);
    string_of(&v)
}

fn is_allowed_action(a: &Vec<char>) -> (r: bool)
    ensures
        r == allowed_action(a@),
        r == (a@ == "lock"@ || a@ == "unlock"@ || a@ == "presence"@ || a@ == "status"@),
{
    let s = string_of(a);
    let lock = str_of("lock");
    let unlock = str_of("unlock");
    let presence = str_of("presence");
    let status = str_of("status");
    s == lock || s == unlock || s == presence || s == status
}

/// Builds a custom NFC tag payload; never panics, `Err` on invalid input.
pub fn build_custom_tag(req: &NfcCustomRequest) -> (r: Result<NfcCustomResult, String>)
    ensures
        match custom_tag_spec(req.kind, req.target@) {
            Ok((ndef, desc, rt)) => r matches Ok(res) && res.ndef_b64@ == base64_standard(ndef)
                && res.description@ == desc && res.record_type@ == rt,
            Err(msg) => r matches Err(e) && e@ == msg,
        },
{
    match req.kind {
        NfcTagKind::PairHandshake => Err(str_of("use nfc_guidance for pairing")),
        NfcTagKind::Uri => {
            let uri = trim_ws_exec(&chars_of(req.target.as_str()));
            if uri.len() == 0 {
                return Err(str_of("URI target must not be empty"));
            }
            let colon = vec![':'];
            assert(colon@ == seq![':']);
            if find_sub(&uri, &colon).is_none() {
                return Err(str_of("URI must include a scheme (e.g. https:// or app://)"));
            }
            let uri_s = string_of(&uri);
            let rec = NdefRecord::uri(uri_s.as_str());
            let bytes = rec.encode();
            Ok(
                NfcCustomResult {
                    ndef_b64: base64_encode(bytes.as_slice()),
                    description: concat_str("Open ", &uri, " when the tag is tapped"),
                    record_type: str_of("uri"),
                },
            )
        },
        NfcTagKind::Text => {
            let txt = trim_ws_exec(&chars_of(req.target.as_str()));
            if txt.len() == 0 {
                return Err(str_of("text must not be empty"));
            }
            let txt_s = string_of(&txt);
            if txt_s.as_str().as_bytes().len() > MAX_TAG_TEXT_BYTES {
                return Err(str_of("text is too long for an NFC tag (max 300 chars)"));
            }
            let rec = NdefRecord::text(txt_s.as_str());
            let bytes = rec.encode();
            Ok(
                NfcCustomResult {
                    ndef_b64: base64_encode(bytes.as_slice()),
                    description: prefix_str("Show text: ", &txt),
                    record_type: str_of("text"),
                },
            )
        },
        NfcTagKind::InternalAction => {
            let action = ascii_lower(&trim_ws_exec(&chars_of(req.target.as_str())));
            if !is_allowed_action(&action) {
                return Err(
                    concat_str(
                        "Unknown action '",
                        &action,
                        "'. Allowed: lock, unlock, presence, status",
                    ),
                );
            }
            let uri = prefix_str("micontrol://action/", &action);
            let rec = NdefRecord::uri(uri.as_str());
            let bytes = rec.encode();
            Ok(
                NfcCustomResult {
                    ndef_b64: base64_encode(bytes.as_slice()),
                    description: prefix_str("Trigger MiControl action: ", &action),
                    record_type: str_of("uri"),
                },
            )
        },
    }
}


// ── Guidance ────────────────────────────────────────────────────────────────

/// Upper-case hexadecimal digit of `n < 16`.
pub open spec fn hex_digit(n: u8) -> char {
    if n < 10 {
        (n + 48) as char
    } else {
        (n + 55) as char
    }
}

/// Bytes written as themselves in the deep link's query value.
pub open spec fn url_unreserved(b: u8) -> bool {
    (0x61 <= b <= 0x7a) || (0x41 <= b <= 0x5a) || (0x30 <= b <= 0x39) || b == 0x2d || b == 0x5f
}

/// Percent-encoding of a byte string: unreserved bytes stay, every other byte
/// becomes `%XX`.
pub open spec fn url_encode_bytes(b: Seq<u8>) -> Seq<char>
    decreases b.len(),
{
    if b.len() == 0 {
        Seq::<char>::empty()
    } else {
        let x = b.last();
        url_encode_bytes(b.drop_last()) + if url_unreserved(x) {
            seq![x as char]
        } else {
            seq!['%', hex_digit(x / 16), hex_digit(x % 16)]
        }
    }
}

fn hex_digit_exec(n: u8) -> (c: char)
    requires
        n < 16,
    ensures
        c == hex_digit(n),
{
    if n < 10 {
        (n + 48) as char
    } else {
        (n + 55) as char
    }
}

/// Percent-encodes the UTF-8 bytes of `s` for the deep link's `pc` value.
fn url_encode(s: &str) -> (r: Vec<char>)
    ensures
        r@ == url_encode_bytes(encode_utf8(s@)),
{
    let b = s.as_bytes();
    let mut out: Vec<char> = Vec::new();
    let mut i: usize = 0;
    while i < b.len()
        invariant
            i <= b.len(),
            b@ == encode_utf8(s@),
            out@ == url_encode_bytes(b@.take(i as int)),
        decreases b.len() - i,
    {
        let x = b[i];
        proof {
            assert(b@.take(i as int + 1).drop_last() == b@.take(i as int));
        }
        if (0x61 <= x && x <= 0x7a) || (0x41 <= x && x <= 0x5a) || (0x30 <= x && x <= 0x39) || x
            == 0x2d || x == 0x5f {
            out.push(x as char);
        } else {
            out.push('%');
            out.push(hex_digit_exec(x / 16));
            out.push(hex_digit_exec(x % 16));
        }
        i += 1;
    }
    assert(b@.take(b.len() as int) == b@);
    out
}

/// Status and guidance for pairing, shown by the UI.
#[derive(Debug, Clone, PartialEq, Eq)]
pub struct NfcGuidance {
    /// Whether a Phone Link deep link is offered.
    pub link_available: bool,
    /// The Phone Link deep link (`ms-phone:pairing?pc=..`).
    pub link_uri: String,
    /// The URL that the phone's Link-to-Windows app opens natively.
    pub pair_uri: String,
    /// Pairing instructions.
    pub instructions: String,
    /// Base64 of the NDEF text record with the handshake, when a pairing URI was given.
    pub ndef_text: Option<String>,
    /// Base64 of the NDEF URI record for `pair_uri`.
    pub ndef_uri: Option<String>,
    /// Store page of Phone Link.
    pub store_uri: Option<String>,
}

/// The pairing URL used when the caller offers none.
pub open spec fn default_pair_uri() -> Seq<char> {
    "https://aka.ms/LinkPCPhone"@
}

pub open spec fn opt_str_view(o: Option<&str>) -> Option<Seq<char>> {
    match o {
        Some(s) => Some(s@),
        None => None,
    }
}

/// The pairing URL that the guidance offers.
pub open spec fn guidance_pair_uri(pair_uri: Option<Seq<char>>) -> Seq<char> {
    match pair_uri {
        Some(p) => if p.len() > 0 {
            p
        } else {
            default_pair_uri()
        },
        None => default_pair_uri(),
    }
}

fn opt_string(o: Option<&str>) -> (r: Option<String>)
    ensures
        opt_view(r) == opt_str_view(o),
{
    match o {
        Some(s) => Some(str_of(s)),
        None => None,
    }
}

/// Pairing guidance for this PC; `pair_uri` adds the handshake record.
pub fn guidance(display_name: &str, fingerprint: Option<&str>, pair_uri: Option<&str>) -> (g:
    NfcGuidance)
    ensures
        g.link_available,
        g.link_uri@ == "ms-phone:pairing?pc="@ + url_encode_bytes(encode_utf8(display_name@)),
        g.pair_uri@ == guidance_pair_uri(opt_str_view(pair_uri)),
        g.ndef_uri matches Some(u) && u@ == base64_standard(
            encode_spec(TNF_WELL_KNOWN, rtd_uri(), uri_payload(g.pair_uri@)),
        ),
        (pair_uri is None || pair_uri.unwrap()@.len() == 0) <==> g.ndef_text is None,
        g.ndef_text matches Some(t) ==> t@ == base64_standard(
            encode_spec(
                TNF_WELL_KNOWN,
                rtd_text(),
                text_payload(
                    handshake_json(
                        "micontrol-pair/v1"@,
                        pair_uri.unwrap()@,
                        display_name@,
                        opt_str_view(fingerprint),
                    ),
                ),
            ),
        ),
        g.store_uri matches Some(s) && s@ == "https://apps.microsoft.com/detail/9NMPJ99VJBWV"@,
{
    let hs_pair: String = match pair_uri {
        Some(p) => str_of(p),
        None => str_of(""),
    };
    let handshake = NfcHandshake {
        schema: str_of("micontrol-pair/v1"),
        pair_uri: hs_pair,
        display_name: str_of(display_name),
        fingerprint: opt_string(fingerprint),
    };
    let pair_given = match pair_uri {
        Some(p) => !p.is_empty(),
        None => false,
    };
    let ndef_text = if !pair_given {
        None
    } else {
        match build_handshake_record(&handshake) {
            Ok(r) => Some(base64_encode(r.encode().as_slice())),
            Err(_) => None,
        }
    };
    let out_pair: String = match pair_uri {
        Some(p) => if pair_given {
            str_of(p)
        } else {
            str_of("https://aka.ms/LinkPCPhone")
        },
        None => str_of("https://aka.ms/LinkPCPhone"),
    };
    let ndef_uri = Some(base64_encode(NdefRecord::uri(out_pair.as_str()).encode().as_slice()));
    let mut link: Vec<char> = chars_of("ms-phone:pairing?pc=");
    append_chars(&mut link, &url_encode(display_name));
    NfcGuidance {
        link_available: true,
        link_uri: string_of(&link),
        pair_uri: out_pair,
        instructions: str_of(
            "How to pair with NFC/QR:\n\
1. Open Phone Link on this PC (it opens via the link below).\n\
2. On the phone: Link to Windows → Add a new PC → scan the QR.\n\
3. If your laptop has a physical NFC antenna, write the pair_uri tag (below)\n\
   to an NTAG213/215/216 and tap it with the phone's NFC back.\n\
4. Confirm the pairing code shown on both devices.",
        ),
        ndef_text,
        ndef_uri,
        store_uri: Some(str_of("https://apps.microsoft.com/detail/9NMPJ99VJBWV")),
    }
}

} // verus!
