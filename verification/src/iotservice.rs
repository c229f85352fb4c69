//! Client side of the IoTService named-pipe protocol: the 12-byte wire
//! header, the messages each operation sends, the handling of the reply
//! header and the write rate limit.
use vstd::prelude::*;
use vstd::utf8::{decode_utf8, encode_utf8, valid_utf8};
use aes_gcm::aead::Aead;
use aes_gcm::KeyInit;
use sha2::Digest;
use crate::json::{bool_chars, bool_text, field_raw, field_str, push_field_raw, push_field_str, utf8_bytes};
use crate::text::{append_chars, append_str, chars_of, find_seq, occurs_at, find_from, string_of, utf8_string};

verus! {

/// Size of the fixed IPC header (src_id + dst_id + msg_type + payload_len).
pub const IPC_HEADER_SIZE: usize = 12;

/// Our client id at the IoTService broker.
pub const CLIENT_ID: u16 = 1;

/// Destination id of the IoTDriver worker.
pub const DST_IOT_DRIVER: u16 = 2;

/// Largest reply payload accepted.
pub const MAX_RESPONSE_PAYLOAD: usize = 0x10000;

/// At most this many writes ...
pub const RATE_LIMIT_MAX_WRITES: usize = 100;

/// ... within this many milliseconds.
pub const RATE_LIMIT_WINDOW_MS: u64 = 1000;

pub const GET_MODEL: u32 = 0x1001;
pub const GET_FW_VERSION: u32 = 0x1002;
pub const GET_BIND_STATUS: u32 = 0x1004;
pub const GET_DEVICE_ID: u32 = 0x1005;
pub const GET_DEVICE_STATUS: u32 = 0x1006;
pub const SET_DEVICE_STATUS: u32 = 0x2001;
pub const RESET_DEVICE: u32 = 0x2002;
pub const SET_CHARGING_LIMIT: u32 = 0x1003;
pub const SEND_LAPTOP_STATUS: u32 = 0x3001;
pub const WRITE_WIFI_ITEM: u32 = 0x4001;
pub const DELETE_WIFI_ITEM: u32 = 0x4002;
pub const GET_WIFI_BY_INDEX: u32 = 0x4003;
pub const READ_WIFI_COUNT: u32 = 0x4004;
pub const READ_WIFI_STATUS: u32 = 0x4005;
pub const EMPTY_WIFI_ITEMS: u32 = 0x4006;
pub const CONNECT_WIFI: u32 = 0x4007;
pub const EC_EVENT: u32 = 0x5001;
pub const POWER_EVENT: u32 = 0x5002;

/// The message types that a reply may carry; anything else is dropped.
pub open spec fn known_msg_type(t: u32) -> bool {
    t == GET_MODEL || t == GET_FW_VERSION || t == GET_BIND_STATUS || t == GET_DEVICE_ID || t
        == GET_DEVICE_STATUS || t == SET_DEVICE_STATUS || t == RESET_DEVICE || t
        == SET_CHARGING_LIMIT || t == SEND_LAPTOP_STATUS || t == WRITE_WIFI_ITEM || t
        == DELETE_WIFI_ITEM || t == GET_WIFI_BY_INDEX || t == READ_WIFI_COUNT || t
        == READ_WIFI_STATUS || t == EMPTY_WIFI_ITEMS || t == CONNECT_WIFI || t == EC_EVENT || t
        == POWER_EVENT
}

/// Whether a message type is known (fail-closed check on replies).
pub fn is_known_msg_type(msg_type: u32) -> (r: bool)
    ensures
        r == known_msg_type(msg_type),
{
    msg_type == GET_MODEL || msg_type == GET_FW_VERSION || msg_type == GET_BIND_STATUS
        || msg_type == GET_DEVICE_ID || msg_type == GET_DEVICE_STATUS || msg_type
        == SET_DEVICE_STATUS || msg_type == RESET_DEVICE || msg_type == SET_CHARGING_LIMIT
        || msg_type == SEND_LAPTOP_STATUS || msg_type == WRITE_WIFI_ITEM || msg_type
        == DELETE_WIFI_ITEM || msg_type == GET_WIFI_BY_INDEX || msg_type == READ_WIFI_COUNT
        || msg_type == READ_WIFI_STATUS || msg_type == EMPTY_WIFI_ITEMS || msg_type
        == CONNECT_WIFI || msg_type == EC_EVENT || msg_type == POWER_EVENT
}

// ── Wire header ─────────────────────────────────────────────────────────────

/// The 12-byte message header.
#[derive(Clone, Copy, Debug, PartialEq, Eq, Structural)]
pub struct IpcWireHeader {
    pub src_id: u16,
    pub dst_id: u16,
    pub msg_type: u32,
    pub payload_len: u32,
}

pub open spec fn le16(v: u16) -> Seq<u8> {
    seq![(v % 256) as u8, (v / 256) as u8]
}

pub open spec fn le32(v: u32) -> Seq<u8> {
    seq![(v % 256) as u8, ((v / 256) % 256) as u8, ((v / 65536) % 256) as u8, (v / 16777216) as u8]
}

/// The header as it travels on the pipe: each field little-endian, in order.
pub open spec fn header_bytes(h: IpcWireHeader) -> Seq<u8> {
    le16(h.src_id) + le16(h.dst_id) + le32(h.msg_type) + le32(h.payload_len)
}

pub open spec fn read_le16(b: Seq<u8>, i: int) -> int {
    b[i] as int + b[i + 1] as int * 256
}

pub open spec fn read_le32(b: Seq<u8>, i: int) -> int {
    b[i] as int + b[i + 1] as int * 256 + b[i + 2] as int * 65536 + b[i + 3] as int * 16777216
}

/// The header that the first 12 bytes of `b` hold.
pub open spec fn parse_header(b: Seq<u8>) -> Option<IpcWireHeader> {
    if b.len() < 12 {
        None
    } else {
        Some(
            IpcWireHeader {
                src_id: read_le16(b, 0) as u16,
                dst_id: read_le16(b, 2) as u16,
                msg_type: read_le32(b, 4) as u32,
                payload_len: read_le32(b, 8) as u32,
            },
        )
    }
}

impl IpcWireHeader {
    pub fn new(src_id: u16, dst_id: u16, msg_type: u32, payload_len: u32) -> (h: Self)
        ensures
            h == (IpcWireHeader { src_id, dst_id, msg_type, payload_len }),
    {
        IpcWireHeader { src_id, dst_id, msg_type, payload_len }
    }

    /// The header's wire bytes.
    pub fn as_bytes(&self) -> (b: Vec<u8>)
        ensures
            b@ == header_bytes(*self),
            b.len() == IPC_HEADER_SIZE,
    {
        let mut b: Vec<u8> = Vec::new();
        b.push((self.src_id % 256) as u8);
        b.push((self.src_id / 256) as u8);
        b.push((self.dst_id % 256) as u8);
        b.push((self.dst_id / 256) as u8);
        b.push((self.msg_type % 256) as u8);
        b.push(((self.msg_type / 256) % 256) as u8);
        b.push(((self.msg_type / 65536) % 256) as u8);
        b.push((self.msg_type / 16777216) as u8);
        b.push((self.payload_len % 256) as u8);
        b.push(((self.payload_len / 256) % 256) as u8);
        b.push(((self.payload_len / 65536) % 256) as u8);
        b.push((self.payload_len / 16777216) as u8);
        assert(b@ == header_bytes(*self));
        b
    }

    /// The header held by the first 12 bytes of `bytes`; `None` when fewer.
    pub fn from_bytes(bytes: &[u8]) -> (r: Option<Self>)
        ensures
            r == parse_header(bytes@),
    {
        if bytes.len() < 12 {
            return None;
        }
        let src = bytes[0] as u16 + bytes[1] as u16 * 256;
        let dst = bytes[2] as u16 + bytes[3] as u16 * 256;
        let t = bytes[4] as u32 + bytes[5] as u32 * 256 + bytes[6] as u32 * 65536 + bytes[7] as u32
            * 16777216;
        let l = bytes[8] as u32 + bytes[9] as u32 * 256 + bytes[10] as u32 * 65536 + bytes[11] as u32
            * 16777216;
        Some(IpcWireHeader { src_id: src, dst_id: dst, msg_type: t, payload_len: l })
    }
}

proof fn lemma_le16(v: u16)
    ensures
        (v % 256) as u8 as int + (v / 256) as u8 as int * 256 == v,
{
}

proof fn lemma_le32(v: u32)
    ensures
        (v % 256) as u8 as int + ((v / 256) % 256) as u8 as int * 256 + ((v / 65536) % 256) as u8 as int
            * 65536 + (v / 16777216) as u8 as int * 16777216 == v,
{
    assert(v / 16777216 < 256);
    assert(v == (v % 256) + 256 * ((v / 256) % 256) + 65536 * ((v / 65536) % 256) + 16777216 * (v
        / 16777216)) by (nonlinear_arith);
}

/// A header read back from its own wire bytes is the header that was written.
pub proof fn law_header_roundtrip(h: IpcWireHeader)
    ensures
        parse_header(header_bytes(h)) == Some(h),
{
    lemma_le16(h.src_id);
    lemma_le16(h.dst_id);
    lemma_le32(h.msg_type);
    lemma_le32(h.payload_len);
    let b = header_bytes(h);
    assert(b.len() == 12);
    assert(read_le16(b, 0) == h.src_id);
    assert(read_le16(b, 2) == h.dst_id);
    assert(read_le32(b, 4) == h.msg_type);
    assert(read_le32(b, 8) == h.payload_len);
}

/// Sequence numbers of requests, for tracing.
#[derive(Clone, Copy, Debug, PartialEq, Eq, Structural)]
pub struct RequestSeq {
    pub next: u32,
}

impl RequestSeq {
    pub fn new() -> (s: Self)
        ensures
            s.next == 0,
    {
        RequestSeq { next: 0 }
    }

    /// Hands out the current number and advances (wrapping, as `fetch_add`).
    pub fn fetch_next(&mut self) -> (n: u32)
        ensures
            n == old(self).next,
            final(self).next == (if old(self).next == u32::MAX {
                0
            } else {
                (old(self).next + 1) as u32
            }),
    {
        let n = self.next;
        self.next = if n == u32::MAX {
            0
        } else {
            n + 1
        };
        n
    }
}

// ── Errors ──────────────────────────────────────────────────────────────────

/// Why a request or its reply was refused.
#[derive(Clone, Copy, Debug, PartialEq, Eq, Structural)]
pub enum IpcError {
    /// The reply did not come from the worker that was addressed.
    SrcMismatch { expected: u16, got: u16 },
    /// The reply was not addressed to this client.
    DstMismatch { expected: u16, got: u16 },
    /// The reply announced more than `MAX_RESPONSE_PAYLOAD` bytes.
    PayloadTooLarge { len: u32 },
    /// More than `RATE_LIMIT_MAX_WRITES` writes in the last second.
    RateLimited,
    /// A request body could not be serialised.
    Serialize,
}

/// An upper-case hexadecimal digit of `n < 16`.
pub open spec fn hex_upper_digit(n: int) -> char {
    if n < 10 {
        (n + 48) as char
    } else {
        (n + 55) as char
    }
}

/// `v` as four upper-case hexadecimal digits (`{:04X}`).
pub open spec fn hex4(v: u16) -> Seq<char> {
    seq![
        hex_upper_digit((v / 4096) as int),
        hex_upper_digit(((v / 256) % 16) as int),
        hex_upper_digit(((v / 16) % 16) as int),
        hex_upper_digit((v % 16) as int),
    ]
}

fn push_hex4(out: &mut Vec<char>, v: u16)
    ensures
        final(out)@ == old(out)@ + hex4(v),
{
    let ghost start = out@;
    let d = [v / 4096, (v / 256) % 16, (v / 16) % 16, v % 16];
    let mut i: usize = 0;
    while i < 4
        invariant
            i <= 4,
            d[0] == v / 4096 && d[1] == (v / 256) % 16 && d[2] == (v / 16) % 16 && d[3] == v % 16,
            out@ == start + hex4(v).take(i as int),
            forall|k: int| 0 <= k < 4 ==> d[k] < 16,
        decreases 4 - i,
    {
        let x = d[i] as u8;
        out.push(if x < 10 {
            (x + 48) as char
        } else {
            (x + 55) as char
        });
        assert(hex4(v).take(i + 1) == hex4(v).take(i as int).push(hex4(v)[i as int]));
        i += 1;
    }
    assert(hex4(v).take(4) == hex4(v));
}

/// The message of an identity mismatch of the `which` field.
pub open spec fn mismatch_text(which: Seq<char>, expected: u16, got: u16) -> Seq<char> {
    "Response "@ + which + " mismatch: expected 0x"@ + hex4(expected) + ", got 0x"@ + hex4(got)
}

impl IpcError {
    /// The error as a message.
    pub fn message(&self) -> (m: String)
        ensures
            match *self {
                IpcError::SrcMismatch { expected, got } => m@ == mismatch_text("src_id"@, expected, got),
                IpcError::DstMismatch { expected, got } => m@ == mismatch_text("dst_id"@, expected, got),
                IpcError::PayloadTooLarge { len } => m@ == "Response payload too large: "@ + decimal(
                    len as nat,
                ) + " bytes"@,
                IpcError::RateLimited => m@ == "IPC write rate limit exceeded (max 100 writes/second)"@,
                IpcError::Serialize => m@ == "Serialize IPC request"@,
            },
    {
        let mut out: Vec<char> = Vec::new();
        match self {
            IpcError::SrcMismatch { expected, got } => {
                append_str(&mut out, "Response src_id mismatch: expected 0x");
                push_hex4(&mut out, *expected);
                append_str(&mut out, ", got 0x");
                push_hex4(&mut out, *got);
                proof {
                    reveal_strlit("Response src_id mismatch: expected 0x");
                    reveal_strlit("Response ");
                    reveal_strlit("src_id");
                    reveal_strlit(" mismatch: expected 0x");
                    assert("Response src_id mismatch: expected 0x"@ =~= "Response "@ + "src_id"@
                        + " mismatch: expected 0x"@);
                }
            },
            IpcError::DstMismatch { expected, got } => {
                append_str(&mut out, "Response dst_id mismatch: expected 0x");
                push_hex4(&mut out, *expected);
                append_str(&mut out, ", got 0x");
                push_hex4(&mut out, *got);
                proof {
                    reveal_strlit("Response dst_id mismatch: expected 0x");
                    reveal_strlit("Response ");
                    reveal_strlit("dst_id");
                    reveal_strlit(" mismatch: expected 0x");
                    assert("Response dst_id mismatch: expected 0x"@ =~= "Response "@ + "dst_id"@
                        + " mismatch: expected 0x"@);
                }
            },
            IpcError::PayloadTooLarge { len } => {
                append_str(&mut out, "Response payload too large: ");
                append_chars(&mut out, &crate::iotservice::decimal_u64(*len as u64));
                append_str(&mut out, " bytes");
            },
            IpcError::RateLimited => {
                append_str(&mut out, "IPC write rate limit exceeded (max 100 writes/second)");
            },
            IpcError::Serialize => {
                append_str(&mut out, "Serialize IPC request");
            },
        }
        string_of(&out)
    }
}

/// Decimal digits of `n`.
pub open spec fn decimal(n: nat) -> Seq<char>
    decreases n,
{
    if n < 10 {
        seq![(n + 48) as char]
    } else {
        decimal(n / 10) + seq![((n % 10) + 48) as char]
    }
}

/// The decimal representation of `n`.
pub fn decimal_u64(n: u64) -> (r: Vec<char>)
    ensures
        r@ == decimal(n as nat),
    decreases n,
{
    if n < 10 {
        vec![((n as u8) + 48) as char]
    } else {
        let mut r = decimal_u64(n / 10);
        r.push((((n % 10) as u8) + 48) as char);
        r
    }
}

/// Checks that a reply came from the addressed worker and is addressed to us.
pub fn validate_response_header(resp_header: &IpcWireHeader, expected_src_id: u16, expected_dst_id: u16) -> (r: Result<(), IpcError>)
    ensures
        r == (if resp_header.src_id != expected_src_id {
            Err(IpcError::SrcMismatch { expected: expected_src_id, got: resp_header.src_id })
        } else if resp_header.dst_id != expected_dst_id {
            Err(IpcError::DstMismatch { expected: expected_dst_id, got: resp_header.dst_id })
        } else {
            Ok(())
        }),
{
    if resp_header.src_id != expected_src_id {
        return Err(IpcError::SrcMismatch { expected: expected_src_id, got: resp_header.src_id });
    }
    if resp_header.dst_id != expected_dst_id {
        return Err(IpcError::DstMismatch { expected: expected_dst_id, got: resp_header.dst_id });
    }
    Ok(())
}

/// What to do once the reply header was awaited.
#[derive(Clone, Copy, Debug, PartialEq, Eq, Structural)]
pub enum ResponseStep {
    /// The request is done and its reply is empty.
    Empty,
    /// The reply is refused.
    Fail(IpcError),
    /// Read this many payload bytes; they are the reply.
    ReadPayload(u32),
}

/// The step after the reply header: `None` when no header arrived in time
/// (normal for fire-and-forget messages).
pub open spec fn response_step_spec(header: Option<IpcWireHeader>, sent_dst: u16) -> ResponseStep {
    match header {
        None => ResponseStep::Empty,
        Some(h) => if !known_msg_type(h.msg_type) {
            ResponseStep::Empty
        } else if h.src_id != sent_dst {
            ResponseStep::Fail(IpcError::SrcMismatch { expected: sent_dst, got: h.src_id })
        } else if h.dst_id != CLIENT_ID {
            ResponseStep::Fail(IpcError::DstMismatch { expected: CLIENT_ID, got: h.dst_id })
        } else if h.payload_len > MAX_RESPONSE_PAYLOAD {
            ResponseStep::Fail(IpcError::PayloadTooLarge { len: h.payload_len })
        } else if h.payload_len == 0 {
            ResponseStep::Empty
        } else {
            ResponseStep::ReadPayload(h.payload_len)
        },
    }
}

pub fn on_response_header(header: Option<IpcWireHeader>, sent_dst: u16) -> (r: ResponseStep)
    ensures
        r == response_step_spec(header, sent_dst),
{
    match header {
        None => ResponseStep::Empty,
        Some(h) => {
            if !is_known_msg_type(h.msg_type) {
                return ResponseStep::Empty;
            }
            match validate_response_header(&h, sent_dst, CLIENT_ID) {
                Err(e) => return ResponseStep::Fail(e),
                Ok(()) => {},
            }
            if h.payload_len as usize > MAX_RESPONSE_PAYLOAD {
                return ResponseStep::Fail(IpcError::PayloadTooLarge { len: h.payload_len });
            }
            if h.payload_len == 0 {
                ResponseStep::Empty
            } else {
                ResponseStep::ReadPayload(h.payload_len)
            }
        },
    }
}

/// A reply is read only when it is of a known type, comes from the addressed
/// worker, is addressed to this client and is within the size bound.
pub proof fn law_reply_read_only_when_authentic(header: Option<IpcWireHeader>, sent_dst: u16)
    ensures
        response_step_spec(header, sent_dst) matches ResponseStep::ReadPayload(n) ==> header matches Some(h)
            && known_msg_type(h.msg_type) && h.src_id == sent_dst && h.dst_id == CLIENT_ID && 0 < n
            <= MAX_RESPONSE_PAYLOAD && n == h.payload_len,
{
}

// ── Rate limit ──────────────────────────────────────────────────────────────

/// Whether a write at `t` still counts at `now` (monotonic milliseconds).
pub open spec fn in_window(now: u64, t: u64) -> bool {
    now < t || now - t < RATE_LIMIT_WINDOW_MS
}

pub open spec fn window_pred(now: u64) -> spec_fn(u64) -> bool {
    |t: u64| in_window(now, t)
}

/// One decision of the limiter over the recorded write times: drop those
/// outside the window, then admit (and record) `now` when fewer than 100
/// remain.
pub open spec fn rate_step(times: Seq<u64>, now: u64) -> (Seq<u64>, bool) {
    let kept = times.filter(window_pred(now));
    if kept.len() < RATE_LIMIT_MAX_WRITES {
        (kept.push(now), true)
    } else {
        (kept, false)
    }
}

/// What the limiter has recorded after the calls at `calls`, starting empty.
pub open spec fn limiter_state(calls: Seq<u64>) -> Seq<u64>
    decreases calls.len(),
{
    if calls.len() == 0 {
        Seq::empty()
    } else {
        rate_step(limiter_state(calls.drop_last()), calls.last()).0
    }
}

/// The times of the calls that the limiter admitted, in order.
pub open spec fn admitted(calls: Seq<u64>) -> Seq<u64>
    decreases calls.len(),
{
    if calls.len() == 0 {
        Seq::empty()
    } else {
        let a = admitted(calls.drop_last());
        if rate_step(limiter_state(calls.drop_last()), calls.last()).1 {
            a.push(calls.last())
        } else {
            a
        }
    }
}

/// Call times that never go back (a monotonic clock).
pub open spec fn nondecreasing(calls: Seq<u64>) -> bool {
    forall|i: int, j: int| 0 <= i <= j < calls.len() ==> calls[i] <= calls[j]
}

proof fn lemma_filter_push(a: Seq<u64>, p: spec_fn(u64) -> bool, x: u64)
    ensures
        a.push(x).filter(p) == if p(x) {
            a.filter(p).push(x)
        } else {
            a.filter(p)
        },
{
    reveal(Seq::filter);
    assert(a.push(x).drop_last() == a);
}

/// Once a later time has passed, what is still in its window was in the
/// window of every earlier time no earlier than the entries.
proof fn lemma_window_compose(a: Seq<u64>, n1: u64, n2: u64)
    requires
        n1 <= n2,
        forall|k: int| 0 <= k < a.len() ==> a[k] <= n1,
    ensures
        a.filter(window_pred(n1)).filter(window_pred(n2)) == a.filter(window_pred(n2)),
    decreases a.len(),
{
    reveal(Seq::filter);
    if a.len() > 0 {
        let x = a.last();
        let r = a.drop_last();
        assert(forall|k: int| 0 <= k < r.len() ==> r[k] == a[k]);
        lemma_window_compose(r, n1, n2);
        lemma_filter_push(r, window_pred(n1), x);
        lemma_filter_push(r.filter(window_pred(n1)), window_pred(n2), x);
        lemma_filter_push(r, window_pred(n2), x);
        assert(r.push(x) == a);
    }
}

/// Every admitted time is one of the calls, so none is later than the last.
proof fn lemma_admitted_bounded(calls: Seq<u64>)
    requires
        nondecreasing(calls),
        calls.len() > 0,
    ensures
        forall|k: int| 0 <= k < admitted(calls).len() ==> admitted(calls)[k] <= calls.last(),
    decreases calls.len(),
{
    let r = calls.drop_last();
    let a = admitted(r);
    if r.len() > 0 {
        assert(nondecreasing(r));
        lemma_admitted_bounded(r);
        assert(r.last() <= calls.last());
    }
    assert(forall|k: int| 0 <= k < a.len() ==> a[k] <= calls.last());
    if rate_step(limiter_state(r), calls.last()).1 {
        assert(admitted(calls) == a.push(calls.last()));
    } else {
        assert(admitted(calls) == a);
    }
}

/// The limiter's record is the admitted calls still in the last call's
/// window, and its count there never exceeds 100.
proof fn lemma_limiter(calls: Seq<u64>)
    requires
        nondecreasing(calls),
        calls.len() > 0,
    ensures
        limiter_state(calls) == admitted(calls).filter(window_pred(calls.last())),
        admitted(calls).filter(window_pred(calls.last())).len() <= RATE_LIMIT_MAX_WRITES,
    decreases calls.len(),
{
    reveal(Seq::filter);
    let r = calls.drop_last();
    let now = calls.last();
    let a = admitted(r);
    if r.len() == 0 {
        assert(a.filter(window_pred(now)) == Seq::<u64>::empty());
    } else {
        assert(nondecreasing(r));
        lemma_limiter(r);
        lemma_admitted_bounded(r);
        let prev = r.last();
        assert(prev <= now);
        lemma_window_compose(a, prev, now);
        a.filter(window_pred(prev)).lemma_filter_len(window_pred(now));
    }
    lemma_filter_push(a, window_pred(now), now);
    assert(in_window(now, now));
}

/// At every call, at most 100 of the calls made within the last second up
/// to it were admitted, whatever came before; a refused call records
/// nothing. `limiter_state` is what `check_rate_limit` keeps, call after
/// call, on a monotonic clock.
pub proof fn law_rate_limit_window(calls: Seq<u64>, j: int)
    requires
        nondecreasing(calls),
        0 <= j < calls.len(),
    ensures
        admitted(calls.take(j + 1)).filter(window_pred(calls[j])).len() <= RATE_LIMIT_MAX_WRITES,
        limiter_state(calls.take(j + 1)) == admitted(calls.take(j + 1)).filter(window_pred(calls[j])),
        !rate_step(limiter_state(calls.take(j)), calls[j]).1 ==> admitted(calls.take(j + 1))
            == admitted(calls.take(j)),
{
    let c = calls.take(j + 1);
    assert(nondecreasing(c));
    assert(c.last() == calls[j]);
    assert(c.drop_last() == calls.take(j));
    lemma_limiter(c);
}

/// Admits a write at `now` when fewer than 100 writes fall in the last second;
/// older entries are dropped, and an admitted write is recorded.
pub fn check_rate_limit(times: &mut Vec<u64>, now: u64) -> (allowed: bool)
    ensures
        (final(times)@, allowed) == rate_step(old(times)@, now),
        allowed == (old(times)@.filter(window_pred(now)).len() < RATE_LIMIT_MAX_WRITES),
        allowed ==> final(times)@ == old(times)@.filter(window_pred(now)).push(now),
        !allowed ==> final(times)@ == old(times)@.filter(window_pred(now)),
{
    let ghost orig = times@;
    let ghost p = window_pred(now);
    let mut kept: Vec<u64> = Vec::new();
    let mut i: usize = 0;
    proof {
        reveal(Seq::filter);
    }
    while i < times.len()
        invariant
            i <= times.len(),
            times@ == orig,
            p == window_pred(now),
            kept@ == orig.take(i as int).filter(p),
        decreases times.len() - i,
    {
        let t = times[i];
        proof {
            reveal(Seq::filter);
            assert(orig.take(i as int + 1).drop_last() == orig.take(i as int));
            assert(orig.take(i as int + 1).last() == t);
            assert(p(t) == in_window(now, t));
        }
        if now < t || now - t < RATE_LIMIT_WINDOW_MS {
            kept.push(t);
            assert(orig.take(i as int + 1).filter(p) == orig.take(i as int).filter(p).push(t));
        } else {
            assert(orig.take(i as int + 1).filter(p) == orig.take(i as int).filter(p));
        }
        i += 1;
    }
    assert(orig.take(orig.len() as int) == orig);
    *times = kept;
    if times.len() >= RATE_LIMIT_MAX_WRITES {
        return false;
    }
    times.push(now);
    true
}

/// The limiter keeps at most 100 recorded writes: starting from at most 100,
/// what `check_rate_limit` leaves behind (admitted or not) has at most 100.
pub proof fn law_rate_limit_bound(times: Seq<u64>, now: u64)
    requires
        times.len() <= RATE_LIMIT_MAX_WRITES,
    ensures
        times.filter(window_pred(now)).len() < RATE_LIMIT_MAX_WRITES ==> times.filter(
            window_pred(now),
        ).push(now).len() <= RATE_LIMIT_MAX_WRITES,
        times.filter(window_pred(now)).len() <= RATE_LIMIT_MAX_WRITES,
{
    times.lemma_filter_len(window_pred(now));
}

// ── Laptop status ───────────────────────────────────────────────────────────

/// Laptop lifecycle states reported to the service.
#[derive(Clone, Copy, Debug, PartialEq, Eq, Structural)]
pub enum LaptopStatus {
    /// Windows has booted and is ready.
    WinReady,
    /// The system is entering sleep.
    Suspending,
    /// The system is shutting down.
    Shutting,
}

pub open spec fn laptop_hw_value(s: LaptopStatus) -> u32 {
    match s {
        LaptopStatus::WinReady => 4,
        LaptopStatus::Suspending => 6,
        LaptopStatus::Shutting => 8,
    }
}

impl LaptopStatus {
    /// The value that IoTService expects: 4, 6 or 8.
    pub fn to_hw_value(self) -> (r: u32)
        ensures
            r == laptop_hw_value(self),
    {
        match self {
            LaptopStatus::WinReady => 4,
            LaptopStatus::Suspending => 6,
            LaptopStatus::Shutting => 8,
        }
    }

    pub fn as_str(&self) -> (r: &'static str)
        ensures
            r@ == (match *self {
                LaptopStatus::WinReady => "IOT_WIN_READY"@,
                LaptopStatus::Suspending => "IOT_SUSPENDING"@,
                LaptopStatus::Shutting => "IOT_SHUTING"@,
            }),
    {
        match self {
            LaptopStatus::WinReady => "IOT_WIN_READY",
            LaptopStatus::Suspending => "IOT_SUSPENDING",
            LaptopStatus::Shutting => "IOT_SHUTING",
        }
    }
}


// ── Replies and events ──────────────────────────────────────────────────────

/// Model information returned by GetModel.
#[derive(Debug, Clone, PartialEq, Eq)]
pub struct ModelInfo {
    pub model: String,
}

/// Firmware version returned by GetFwVersion.
#[derive(Debug, Clone, PartialEq, Eq)]
pub struct FwVersionInfo {
    pub fw_version: String,
}

/// Bind status returned by GetBindStatus.
#[derive(Debug, Clone, Copy, PartialEq, Eq, Structural)]
pub struct BindStatusInfo {
    pub bound: bool,
    pub uid: Option<u64>,
}

/// Device id returned by GetDeviceID.
#[derive(Debug, Clone, Copy, PartialEq, Eq, Structural)]
pub struct DeviceIdInfo {
    pub device_id: i64,
}

/// Device status returned by GetDeviceStatus.
#[derive(Debug, Clone, PartialEq, Eq)]
pub struct DeviceStatusInfo {
    pub status: String,
}

/// A WiFi network to provision.
#[derive(Debug, Clone, PartialEq, Eq)]
pub struct WiFiItem {
    pub ssid: String,
    pub password: Option<String>,
    pub enable: bool,
    pub uid: Option<u64>,
    pub fw_version: Option<String>,
}

/// A WiFi item returned by GetWiFiByIndex.
#[derive(Debug, Clone, PartialEq, Eq)]
pub struct WiFiItemInfo {
    pub ssid: String,
    pub connected: bool,
    pub enabled: bool,
}

/// WiFi status returned by ReadWiFiStatus.
#[derive(Debug, Clone, PartialEq, Eq)]
pub struct WiFiStatusInfo {
    pub wifi_status: u32,
    pub ssid: Option<String>,
}

/// WiFi count returned by ReadWiFiCount.
#[derive(Debug, Clone, Copy, PartialEq, Eq, Structural)]
pub struct WiFiCountInfo {
    pub count: u32,
}

/// Power events that IoTService monitors.
#[derive(Debug, Clone, Copy, PartialEq, Eq, Structural)]
pub enum PowerEventType {
    AcDcSourceChange,
    BatteryPercentageChange,
    MonitorPowerChange,
    PowerSavingChange,
    PowerSchemeChange,
    AwayModeChange,
    LidSwitchChange,
    ConsoleDisplayChange,
    UserPresenceChange,
}

/// A power event and the values that came with it.
#[derive(Debug, Clone, PartialEq, Eq)]
pub struct PowerEvent {
    pub event_type: PowerEventType,
    pub ac_online: Option<bool>,
    pub battery_percent: Option<u8>,
    pub monitor_on: Option<bool>,
    pub battery_saver_on: Option<bool>,
    pub power_scheme: Option<String>,
    pub away_mode: Option<bool>,
    pub lid_open: Option<bool>,
    pub display_on: Option<bool>,
    pub user_present: Option<bool>,
}

/// An embedded-controller event.
#[derive(Debug, Clone, Copy, PartialEq, Eq, Structural)]
pub struct EcEvent {
    pub event_func: u32,
    pub event_value: u32,
}

/// Every notification that can be sent to IoTService.
#[derive(Debug, Clone, PartialEq, Eq)]
pub enum IotEvent {
    Power { event: PowerEvent },
    Ec { event_func: u32, event_value: u32 },
    LaptopStatus { status: LaptopStatus },
}

/// Everything that can be asked of the device in one go; a field is `None`
/// when its query failed.
#[derive(Debug, Clone, PartialEq, Eq)]
pub struct IotDeviceInfo {
    pub pipe_available: bool,
    pub model: Option<String>,
    pub fw_version: Option<String>,
    pub bind_status: Option<BindStatusInfo>,
    pub device_id: Option<i64>,
    pub device_status: Option<String>,
    pub wifi_status: Option<WiFiStatusInfo>,
    pub wifi_network_count: Option<u32>,
}

/// The provisioned WiFi networks.
#[derive(Debug, Clone, PartialEq, Eq)]
pub struct IotWifiList {
    pub status: Option<WiFiStatusInfo>,
    pub count: u32,
    pub networks: Vec<WiFiItemInfo>,
}

impl Default for IotWifiList {
    fn default() -> (l: Self)
        ensures
            l.status is None,
            l.count == 0,
            l.networks@.len() == 0,
    {
        IotWifiList { status: None, count: 0, networks: Vec::new() }
    }
}

// ── Requests ────────────────────────────────────────────────────────────────

/// One message to send to the broker.
#[derive(Debug, Clone, PartialEq, Eq)]
pub struct IpcRequest {
    pub dst_id: u16,
    pub msg_type: u32,
    pub payload: Vec<u8>,
}

impl IpcRequest {
    /// The bytes written to the pipe: our header, then the payload.
    pub fn frame(&self) -> (b: Vec<u8>)
        ensures
            b@ == header_bytes(
                IpcWireHeader {
                    src_id: CLIENT_ID,
                    dst_id: self.dst_id,
                    msg_type: self.msg_type,
                    payload_len: self.payload@.len() as u32,
                },
            ) + self.payload@,
    {
        let h = IpcWireHeader::new(CLIENT_ID, self.dst_id, self.msg_type, self.payload.len() as u32);
        let mut b = h.as_bytes();
        crate::text::append_bytes(&mut b, self.payload.as_slice());
        b
    }
}

pub open spec fn is_query(r: IpcRequest, t: u32) -> bool {
    r.dst_id == DST_IOT_DRIVER && r.msg_type == t && r.payload@.len() == 0
}

pub open spec fn is_json_cmd(r: IpcRequest, t: u32, json: Seq<char>) -> bool {
    r.dst_id == DST_IOT_DRIVER && r.msg_type == t && r.payload@ == encode_utf8(json)
}

fn query(t: u32) -> (r: IpcRequest)
    ensures
        is_query(r, t),
{
    IpcRequest { dst_id: DST_IOT_DRIVER, msg_type: t, payload: Vec::new() }
}

fn json_cmd(t: u32, json: &Vec<char>) -> (r: IpcRequest)
    ensures
        is_json_cmd(r, t, json@),
{
    IpcRequest { dst_id: DST_IOT_DRIVER, msg_type: t, payload: utf8_bytes(json) }
}

/// The query for the device model.
pub fn get_model() -> (r: IpcRequest)
    ensures
        is_query(r, GET_MODEL),
{
    query(GET_MODEL)
}

/// The query for the firmware version.
pub fn get_fw_version() -> (r: IpcRequest)
    ensures
        is_query(r, GET_FW_VERSION),
{
    query(GET_FW_VERSION)
}

/// The query for the bind status.
pub fn get_bind_status() -> (r: IpcRequest)
    ensures
        is_query(r, GET_BIND_STATUS),
{
    query(GET_BIND_STATUS)
}

/// The query for the device id.
pub fn get_device_id() -> (r: IpcRequest)
    ensures
        is_query(r, GET_DEVICE_ID),
{
    query(GET_DEVICE_ID)
}

/// The query for the device status.
pub fn get_device_status() -> (r: IpcRequest)
    ensures
        is_query(r, GET_DEVICE_STATUS),
{
    query(GET_DEVICE_STATUS)
}

/// The query for the number of provisioned networks.
pub fn read_wifi_count() -> (r: IpcRequest)
    ensures
        is_query(r, READ_WIFI_COUNT),
{
    query(READ_WIFI_COUNT)
}

/// The query for the WiFi connection status.
pub fn read_wifi_status() -> (r: IpcRequest)
    ensures
        is_query(r, READ_WIFI_STATUS),
{
    query(READ_WIFI_STATUS)
}

/// The command that removes every provisioned network.
pub fn empty_wifi_items() -> (r: IpcRequest)
    ensures
        is_query(r, EMPTY_WIFI_ITEMS),
{
    query(EMPTY_WIFI_ITEMS)
}

/// The command that makes the device join the provisioned WiFi.
pub fn connect_wifi() -> (r: IpcRequest)
    ensures
        is_query(r, CONNECT_WIFI),
{
    query(CONNECT_WIFI)
}

/// `{"status":..}`, the SetDeviceStatus body.
pub fn set_device_status(status: &str) -> (r: Result<IpcRequest, IpcError>)
    ensures
        r matches Ok(req) && is_json_cmd(
            req,
            SET_DEVICE_STATUS,
            seq!['{'] + field_str("status"@, status@) + seq!['}'],
        ),
{
    let mut j: Vec<char> = vec!['{'];
    assert(j@ == seq!['{']);
    push_field_str(&mut j, "status", status);
    j.push('}');
    assert(j@ =~= seq!['{'] + field_str("status"@, status@) + seq!['}']);
    Ok(json_cmd(SET_DEVICE_STATUS, &j))
}

/// `{"reset":true}`, the ResetDevice body.
pub fn reset_device() -> (r: IpcRequest)
    ensures
        is_json_cmd(r, RESET_DEVICE, seq!['{'] + field_raw("reset"@, "true"@) + seq!['}']),
{
    let mut j: Vec<char> = vec!['{'];
    assert(j@ == seq!['{']);
    push_field_raw(&mut j, "reset", &bool_chars(true));
    j.push('}');
    assert(j@ =~= seq!['{'] + field_raw("reset"@, "true"@) + seq!['}']);
    json_cmd(RESET_DEVICE, &j)
}

/// `{"LaptopStatus":n}` with the status's hardware value.
pub fn send_laptop_status(status: LaptopStatus) -> (r: IpcRequest)
    ensures
        is_json_cmd(
            r,
            SEND_LAPTOP_STATUS,
            seq!['{'] + field_raw("LaptopStatus"@, decimal(laptop_hw_value(status) as nat))
                + seq!['}'],
        ),
{
    let mut j: Vec<char> = vec!['{'];
    assert(j@ == seq!['{']);
    push_field_raw(&mut j, "LaptopStatus", &decimal_u64(status.to_hw_value() as u64));
    j.push('}');
    assert(j@ =~= seq!['{'] + field_raw("LaptopStatus"@, decimal(laptop_hw_value(status) as nat)) + seq!['}']);
    json_cmd(SEND_LAPTOP_STATUS, &j)
}

pub fn report_windows_ready() -> (r: IpcRequest)
    ensures
        is_json_cmd(
            r,
            SEND_LAPTOP_STATUS,
            seq!['{'] + field_raw("LaptopStatus"@, decimal(4)) + seq!['}'],
        ),
{
    send_laptop_status(LaptopStatus::WinReady)
}

pub fn report_suspending() -> (r: IpcRequest)
    ensures
        is_json_cmd(
            r,
            SEND_LAPTOP_STATUS,
            seq!['{'] + field_raw("LaptopStatus"@, decimal(6)) + seq!['}'],
        ),
{
    send_laptop_status(LaptopStatus::Suspending)
}

pub fn report_shutting_down() -> (r: IpcRequest)
    ensures
        is_json_cmd(
            r,
            SEND_LAPTOP_STATUS,
            seq!['{'] + field_raw("LaptopStatus"@, decimal(8)) + seq!['}'],
        ),
{
    send_laptop_status(LaptopStatus::Shutting)
}

/// `{"ssid":..}`, the DeleteWiFiItem body.
pub fn delete_wifi_item(ssid: &str) -> (r: Result<IpcRequest, IpcError>)
    ensures
        r matches Ok(req) && is_json_cmd(
            req,
            DELETE_WIFI_ITEM,
            seq!['{'] + field_str("ssid"@, ssid@) + seq!['}'],
        ),
{
    let mut j: Vec<char> = vec!['{'];
    assert(j@ == seq!['{']);
    push_field_str(&mut j, "ssid", ssid);
    j.push('}');
    assert(j@ =~= seq!['{'] + field_str("ssid"@, ssid@) + seq!['}']);
    Ok(json_cmd(DELETE_WIFI_ITEM, &j))
}

/// `{"index":n}`, the GetWiFiByIndex body.
pub fn get_wifi_by_index(index: u32) -> (r: IpcRequest)
    ensures
        is_json_cmd(
            r,
            GET_WIFI_BY_INDEX,
            seq!['{'] + field_raw("index"@, decimal(index as nat)) + seq!['}'],
        ),
{
    let mut j: Vec<char> = vec!['{'];
    assert(j@ == seq!['{']);
    push_field_raw(&mut j, "index", &decimal_u64(index as u64));
    j.push('}');
    assert(j@ =~= seq!['{'] + field_raw("index"@, decimal(index as nat)) + seq!['}']);
    json_cmd(GET_WIFI_BY_INDEX, &j)
}

/// An optional field, written after a comma when present.
pub open spec fn opt_raw(key: Seq<char>, v: Option<Seq<char>>) -> Seq<char> {
    match v {
        Some(t) => seq![','] + field_raw(key, t),
        None => Seq::<char>::empty(),
    }
}

pub open spec fn opt_str(key: Seq<char>, v: Option<Seq<char>>) -> Seq<char> {
    match v {
        Some(t) => seq![','] + field_str(key, t),
        None => Seq::<char>::empty(),
    }
}

pub open spec fn opt_bool_text(v: Option<bool>) -> Option<Seq<char>> {
    match v {
        Some(b) => Some(bool_text(b)),
        None => None,
    }
}

pub open spec fn opt_dec(v: Option<u64>) -> Option<Seq<char>> {
    match v {
        Some(n) => Some(decimal(n as nat)),
        None => None,
    }
}

pub open spec fn opt_string_view(v: Option<String>) -> Option<Seq<char>> {
    match v {
        Some(s) => Some(s@),
        None => None,
    }
}

fn push_opt_raw(out: &mut Vec<char>, key: &str, v: Option<Vec<char>>)
    ensures
        final(out)@ == old(out)@ + opt_raw(
            key@,
            match v {
                Some(t) => Some(t@),
                None => None,
            },
        ),
{
    match v {
        Some(t) => {
            let ghost start = out@;
            out.push(',');
            push_field_raw(out, key, &t);
            assert(out@ == start + (seq![','] + field_raw(key@, t@)));
        },
        None => {
            assert(out@ == out@ + Seq::<char>::empty());
        },
    }
}

fn push_opt_str(out: &mut Vec<char>, key: &str, v: &Option<String>)
    ensures
        final(out)@ == old(out)@ + opt_str(key@, opt_string_view(*v)),
{
    match v {
        Some(t) => {
            let ghost start = out@;
            out.push(',');
            push_field_str(out, key, t.as_str());
            assert(out@ == start + (seq![','] + field_str(key@, t@)));
        },
        None => {
            assert(out@ == out@ + Seq::<char>::empty());
        },
    }
}

fn opt_bool_chars(v: Option<bool>) -> (r: Option<Vec<char>>)
    ensures
        match r {
            Some(t) => opt_bool_text(v) == Some(t@),
            None => opt_bool_text(v) is None,
        },
{
    match v {
        Some(b) => Some(bool_chars(b)),
        None => None,
    }
}

fn opt_dec_chars(v: Option<u64>) -> (r: Option<Vec<char>>)
    ensures
        match r {
            Some(t) => opt_dec(v) == Some(t@),
            None => opt_dec(v) is None,
        },
{
    match v {
        Some(n) => Some(decimal_u64(n)),
        None => None,
    }
}

/// The JSON of a WiFi item, with absent optional fields left out.
pub open spec fn wifi_item_json(
    ssid: Seq<char>,
    password: Option<Seq<char>>,
    enable: bool,
    uid: Option<u64>,
    fw_version: Option<Seq<char>>,
) -> Seq<char> {
    seq!['{'] + field_str("ssid"@, ssid) + opt_str("password"@, password) + seq![','] + field_raw(
        "enable"@,
        bool_text(enable),
    ) + opt_raw("uid"@, opt_dec(uid)) + opt_str("fw_version"@, fw_version) + seq!['}']
}

/// The WriteWiFiItem command with `password` in place of the item's own.
fn wifi_item_request(item: &WiFiItem, password: &Option<String>) -> (r: Result<
    IpcRequest,
    IpcError,
>)
    ensures
        r matches Ok(req) && is_json_cmd(
            req,
            WRITE_WIFI_ITEM,
            wifi_item_json(
                item.ssid@,
                opt_string_view(*password),
                item.enable,
                item.uid,
                opt_string_view(item.fw_version),
            ),
        ),
{
    let mut j: Vec<char> = vec!['{'];
    assert(j@ == seq!['{']);
    push_field_str(&mut j, "ssid", item.ssid.as_str());
    push_opt_str(&mut j, "password", password);
    let ghost mid = j@;
    j.push(',');
    push_field_raw(&mut j, "enable", &bool_chars(item.enable));
    assert(j@ == mid + (seq![','] + field_raw("enable"@, bool_text(item.enable))));
    push_opt_raw(&mut j, "uid", opt_dec_chars(item.uid));
    push_opt_str(&mut j, "fw_version", &item.fw_version);
    j.push('}');
    assert(j@ =~= wifi_item_json(item.ssid@, opt_string_view(*password), item.enable, item.uid, opt_string_view(item.fw_version)));
    Ok(json_cmd(WRITE_WIFI_ITEM, &j))
}

pub open spec fn ec_event_json(event_func: u32, event_value: u32) -> Seq<char> {
    seq!['{'] + field_raw("event_func"@, decimal(event_func as nat)) + seq![','] + field_raw(
        "event_value"@,
        decimal(event_value as nat),
    ) + seq!['}']
}

/// `{"event_func":f,"event_value":v}`, the EC event body.
pub fn notify_ec_event(event_func: u32, event_value: u32) -> (r: IpcRequest)
    ensures
        is_json_cmd(r, EC_EVENT, ec_event_json(event_func, event_value)),
{
    let mut j: Vec<char> = vec!['{'];
    assert(j@ == seq!['{']);
    push_field_raw(&mut j, "event_func", &decimal_u64(event_func as u64));
    j.push(',');
    push_field_raw(&mut j, "event_value", &decimal_u64(event_value as u64));
    j.push('}');
    assert(j@ =~= ec_event_json(event_func, event_value));
    json_cmd(EC_EVENT, &j)
}

pub open spec fn power_event_type_name(t: PowerEventType) -> Seq<char> {
    match t {
        PowerEventType::AcDcSourceChange => "ac_dc_source_change"@,
        PowerEventType::BatteryPercentageChange => "battery_percentage_change"@,
        PowerEventType::MonitorPowerChange => "monitor_power_change"@,
        PowerEventType::PowerSavingChange => "power_saving_change"@,
        PowerEventType::PowerSchemeChange => "power_scheme_change"@,
        PowerEventType::AwayModeChange => "away_mode_change"@,
        PowerEventType::LidSwitchChange => "lid_switch_change"@,
        PowerEventType::ConsoleDisplayChange => "console_display_change"@,
        PowerEventType::UserPresenceChange => "user_presence_change"@,
    }
}

fn power_event_type_str(t: PowerEventType) -> (r: &'static str)
    ensures
        r@ == power_event_type_name(t),
{
    match t {
        PowerEventType::AcDcSourceChange => "ac_dc_source_change",
        PowerEventType::BatteryPercentageChange => "battery_percentage_change",
        PowerEventType::MonitorPowerChange => "monitor_power_change",
        PowerEventType::PowerSavingChange => "power_saving_change",
        PowerEventType::PowerSchemeChange => "power_scheme_change",
        PowerEventType::AwayModeChange => "away_mode_change",
        PowerEventType::LidSwitchChange => "lid_switch_change",
        PowerEventType::ConsoleDisplayChange => "console_display_change",
        PowerEventType::UserPresenceChange => "user_presence_change",
    }
}

pub open spec fn opt_u8_dec(v: Option<u8>) -> Option<Seq<char>> {
    match v {
        Some(n) => Some(decimal(n as nat)),
        None => None,
    }
}

/// The JSON of a power event, with absent values left out.
pub open spec fn power_event_json(e: PowerEvent) -> Seq<char> {
    seq!['{'] + field_str("event_type"@, power_event_type_name(e.event_type)) + opt_raw(
        "ac_online"@,
        opt_bool_text(e.ac_online),
    ) + opt_raw("battery_percent"@, opt_u8_dec(e.battery_percent)) + opt_raw(
        "monitor_on"@,
        opt_bool_text(e.monitor_on),
    ) + opt_raw("battery_saver_on"@, opt_bool_text(e.battery_saver_on)) + opt_str(
        "power_scheme"@,
        opt_string_view(e.power_scheme),
    ) + opt_raw("away_mode"@, opt_bool_text(e.away_mode)) + opt_raw(
        "lid_open"@,
        opt_bool_text(e.lid_open),
    ) + opt_raw("display_on"@, opt_bool_text(e.display_on)) + opt_raw(
        "user_present"@,
        opt_bool_text(e.user_present),
    ) + seq!['}']
}

/// The power event notification.
#[verifier::spinoff_prover]
#[verifier::rlimit(40)]
pub fn notify_power_event(event: &PowerEvent) -> (r: Result<IpcRequest, IpcError>)
    ensures
        r matches Ok(req) && is_json_cmd(req, POWER_EVENT, power_event_json(*event)),
{
    let mut j: Vec<char> = vec!['{'];
    assert(j@ == seq!['{']);
    push_field_str(&mut j, "event_type", power_event_type_str(event.event_type));
    push_opt_raw(&mut j, "ac_online", opt_bool_chars(event.ac_online));
    let pct = match event.battery_percent {
        Some(n) => Some(decimal_u64(n as u64)),
        None => None,
    };
    push_opt_raw(&mut j, "battery_percent", pct);
    push_opt_raw(&mut j, "monitor_on", opt_bool_chars(event.monitor_on));
    push_opt_raw(&mut j, "battery_saver_on", opt_bool_chars(event.battery_saver_on));
    push_opt_str(&mut j, "power_scheme", &event.power_scheme);
    push_opt_raw(&mut j, "away_mode", opt_bool_chars(event.away_mode));
    push_opt_raw(&mut j, "lid_open", opt_bool_chars(event.lid_open));
    push_opt_raw(&mut j, "display_on", opt_bool_chars(event.display_on));
    push_opt_raw(&mut j, "user_present", opt_bool_chars(event.user_present));
    j.push('}');
    assert(j@ =~= power_event_json(*event));
    Ok(json_cmd(POWER_EVENT, &j))
}

/// The notification for any IoT event.
pub fn notify_event(event: &IotEvent) -> (r: Result<IpcRequest, IpcError>)
    ensures
        match *event {
            IotEvent::Power { event: p } => r matches Ok(req) && is_json_cmd(
                req,
                POWER_EVENT,
                power_event_json(p),
            ),
            IotEvent::Ec { event_func, event_value } => r matches Ok(req) && is_json_cmd(
                req,
                EC_EVENT,
                ec_event_json(event_func, event_value),
            ),
            IotEvent::LaptopStatus { status } => r matches Ok(req) && is_json_cmd(
                req,
                SEND_LAPTOP_STATUS,
                seq!['{'] + field_raw("LaptopStatus"@, decimal(laptop_hw_value(status) as nat))
                    + seq!['}'],
            ),
        },
{
    match event {
        IotEvent::Power { event } => notify_power_event(event),
        IotEvent::Ec { event_func, event_value } => Ok(notify_ec_event(*event_func, *event_value)),
        IotEvent::LaptopStatus { status } => Ok(send_laptop_status(*status)),
    }
}


// ── WiFi password encryption ────────────────────────────────────────────────

/// Value of a hexadecimal digit byte, or -1.
pub open spec fn hex_val(c: u8) -> int {
    if 0x30 <= c <= 0x39 {
        c - 0x30
    } else if 0x41 <= c <= 0x46 {
        c - 0x41 + 10
    } else if 0x61 <= c <= 0x66 {
        c - 0x61 + 10
    } else {
        -1
    }
}

/// What `hex::decode` gives for the bytes `b`: `None` for an odd length or a
/// byte that is no hexadecimal digit (either case).
pub open spec fn hex_decoded(b: Seq<u8>) -> Option<Seq<u8>> {
    if b.len() % 2 != 0 || exists|i: int| 0 <= i < b.len() && hex_val(b[i]) < 0 {
        None
    } else {
        Some(Seq::new(b.len() / 2, |i: int| (hex_val(b[2 * i]) * 16 + hex_val(b[2 * i + 1])) as u8))
    }
}

/// `hex::decode`: `Ok` exactly when the text is an even number of hexadecimal
/// digits, with the bytes they spell; the error is the crate's message.
#[verifier::external_body]
fn hex_decode(s: &str) -> (r: Result<Vec<u8>, String>)
    ensures
        match hex_decoded(encode_utf8(s@)) {
            Some(v) => r matches Ok(x) && x@ == v,
            None => r is Err,
        },
{
    match hex::decode(s) {
        Ok(v) => Ok(v),
        Err(e) => Err(e.to_string()),
    }
}

/// The SHA-256 digest of `data`.
pub uninterp spec fn sha256(data: Seq<u8>) -> Seq<u8>;

/// `sha2::Sha256::digest`: the 32-byte digest of `data`.
#[verifier::external_body]
pub(crate) fn sha256_digest(data: &[u8]) -> (r: Vec<u8>)
    ensures
        r@ == sha256(data@),
        r@.len() == 32,
{
    sha2::Sha256::digest(data).to_vec()
}

/// AES-256-GCM ciphertext (tag appended) of `plaintext` under `key` and `nonce`.
pub uninterp spec fn aes256gcm_seal(key: Seq<u8>, nonce: Seq<u8>, plaintext: Seq<u8>) -> Seq<u8>;

/// `aes_gcm::Aes256Gcm` encryption with a 32-byte key and a 12-byte nonce;
/// the error is the crate's message.
#[verifier::external_body]
fn aes256gcm_encrypt(key: &[u8], nonce: &[u8], plaintext: &[u8]) -> (r: Result<Vec<u8>, String>)
    requires
        key@.len() == 32,
        nonce@.len() == 12,
    ensures
        r matches Ok(c) ==> c@ == aes256gcm_seal(key@, nonce@, plaintext@),
        plaintext@.len() <= AES_GCM_P_MAX ==> r is Ok,
{
    let cipher = aes_gcm::Aes256Gcm::new(aes_gcm::Key::<aes_gcm::Aes256Gcm>::from_slice(key));
    match cipher.encrypt(aes_gcm::Nonce::from_slice(nonce), plaintext) {
        Ok(c) => Ok(c),
        Err(e) => Err(e.to_string()),
    }
}

/// The longest plaintext that AES-GCM encrypts (2^36 bytes).
pub const AES_GCM_P_MAX: u64 = 0x10_0000_0000;

/// What AES-256-GCM decryption gives: the plaintext when the tag checks.
pub uninterp spec fn aes256gcm_open(key: Seq<u8>, nonce: Seq<u8>, ciphertext: Seq<u8>) -> Option<Seq<u8>>;

/// `aes_gcm::Aes256Gcm` decryption with a 32-byte key and a 12-byte nonce:
/// the plaintext when the appended tag checks, else the crate's message.
/// What encryption produced under the same key and nonce decrypts to its
/// plaintext.
#[verifier::external_body]
fn aes256gcm_decrypt(key: &[u8], nonce: &[u8], ciphertext: &[u8]) -> (r: Result<Vec<u8>, String>)
    requires
        key@.len() == 32,
        nonce@.len() == 12,
    ensures
        match aes256gcm_open(key@, nonce@, ciphertext@) {
            Some(p) => r matches Ok(x) && x@ == p,
            None => r is Err,
        },
        forall|p: Seq<u8>| #![trigger aes256gcm_seal(key@, nonce@, p)] p.len() <= AES_GCM_P_MAX && ciphertext@ == aes256gcm_seal(key@, nonce@, p) ==> r is Ok && r->Ok_0@ == p,
{
    let cipher = aes_gcm::Aes256Gcm::new(aes_gcm::Key::<aes_gcm::Aes256Gcm>::from_slice(key));
    match cipher.decrypt(aes_gcm::Nonce::from_slice(nonce), ciphertext) {
        Ok(p) => Ok(p),
        Err(e) => Err(e.to_string()),
    }
}

/// The AES key: SHA-256 of the prefix followed by the shared key.
pub open spec fn wifi_aes_key(key: Seq<u8>) -> Seq<u8> {
    sha256(encode_utf8("micontrol-wifi-aes256-v1"@) + key)
}

fn derive_aes_key(key: &[u8]) -> (k: Vec<u8>)
    ensures
        k@ == wifi_aes_key(key@),
        k@.len() == 32,
{
    let prefix = "micontrol-wifi-aes256-v1";
    let mut data: Vec<u8> = Vec::new();
    crate::text::append_bytes(&mut data, prefix.as_bytes());
    crate::text::append_bytes(&mut data, key);
    sha256_digest(data.as_slice())
}

/// Lower-case hexadecimal digit of `n < 16`.
pub open spec fn hex_lower_digit(n: u8) -> char {
    if n < 10 {
        (n + 48) as char
    } else {
        (n + 87) as char
    }
}

/// Lower-case hexadecimal text of `b`, two digits per byte.
pub open spec fn hex_lower(b: Seq<u8>) -> Seq<char>
    decreases b.len(),
{
    if b.len() == 0 {
        Seq::<char>::empty()
    } else {
        hex_lower(b.drop_last()) + seq![hex_lower_digit(b.last() / 16), hex_lower_digit(b.last() % 16)]
    }
}

pub(crate) fn hex_lower_exec(b: &Vec<u8>) -> (r: Vec<char>)
    ensures
        r@ == hex_lower(b@),
{
    let mut r: Vec<char> = Vec::new();
    let mut i: usize = 0;
    while i < b.len()
        invariant
            i <= b.len(),
            r@ == hex_lower(b@.take(i as int)),
        decreases b.len() - i,
    {
        let x = b[i];
        assert(b@.take(i as int + 1).drop_last() == b@.take(i as int));
        let hi = x / 16;
        let lo = x % 16;
        r.push(if hi < 10 {
            (hi + 48) as char
        } else {
            (hi + 87) as char
        });
        r.push(if lo < 10 {
            (lo + 48) as char
        } else {
            (lo + 87) as char
        });
        i += 1;
    }
    assert(b@.take(b.len() as int) == b@);
    r
}

/// The outcome of encrypting a password, over the texts involved:
/// `Ok(text)` or `Err(message prefix)`; a failure inside the cipher is the
/// one case its source leaves open.
pub open spec fn encrypt_spec(password: Seq<char>, key: Seq<u8>, nonce_hex: Seq<char>) -> Result<
    Seq<char>,
    Seq<char>,
> {
    match hex_decoded(encode_utf8(nonce_hex)) {
        None => Err("Invalid nonce: "@),
        Some(nb) => if nb.len() < 12 {
            Err("AES-GCM nonce must be at least 12 bytes"@)
        } else {
            Ok(
                nonce_hex + seq![':'] + hex_lower(
                    aes256gcm_seal(wifi_aes_key(key), nb.take(12), encode_utf8(password)),
                ),
            )
        },
    }
}

/// Encrypts a WiFi password with AES-256-GCM under a key derived from `key`;
/// the text is `{nonce_hex}:{ciphertext_hex}` (the tag included).  Only the
/// first 12 nonce bytes are used.
pub fn encrypt_with_key(password: &str, key: &[u8], nonce_hex: &str) -> (r: Result<String, String>)
    ensures
        match encrypt_spec(password@, key@, nonce_hex@) {
            Ok(t) => (r matches Ok(x) ==> x@ == t) && (encode_utf8(password@).len() <= AES_GCM_P_MAX
                ==> r is Ok),
            Err(m) => r matches Err(e) && e@.len() >= m.len() && e@.take(m.len() as int) == m,
        },
        r is Err && encrypt_spec(password@, key@, nonce_hex@) is Ok ==> r->Err_0@.take(27)
            == "AES-GCM encryption failed: "@,
{
    let nonce_bytes = match hex_decode(nonce_hex) {
        Ok(b) => b,
        Err(e) => {
            let mut m = chars_of("Invalid nonce: ");
            let ghost p = m@;
            append_str(&mut m, e.as_str());
            assert(m@.take(p.len() as int) == p);
            return Err(string_of(&m));
        },
    };
    if nonce_bytes.len() < 12 {
        let m = string_of(&chars_of("AES-GCM nonce must be at least 12 bytes"));
        assert(m@.take(m@.len() as int) == m@);
        return Err(m);
    }
    let nonce_12 = crate::iotservice::take_bytes(&nonce_bytes, 12);
    let aes_key = derive_aes_key(key);
    match aes256gcm_encrypt(aes_key.as_slice(), nonce_12.as_slice(), password.as_bytes()) {
        Ok(ct) => {
            let mut out = chars_of(nonce_hex);
            out.push(':');
            append_chars(&mut out, &hex_lower_exec(&ct));
            Ok(string_of(&out))
        },
        Err(e) => {
            let mut m = chars_of("AES-GCM encryption failed: ");
            proof {
                reveal_strlit("AES-GCM encryption failed: ");
            }
            let ghost p = m@;
            append_str(&mut m, e.as_str());
            assert(m@.take(27) == p);
            Err(string_of(&m))
        },
    }
}

/// The first `n` bytes of `v`.
fn take_bytes(v: &Vec<u8>, n: usize) -> (r: Vec<u8>)
    requires
        n <= v.len(),
    ensures
        r@ == v@.take(n as int),
{
    let mut r: Vec<u8> = Vec::new();
    let mut i: usize = 0;
    while i < n
        invariant
            i <= n <= v.len(),
            r@ == v@.take(i as int),
        decreases n - i,
    {
        r.push(v[i]);
        assert(v@.take(i as int + 1) == v@.take(i as int).push(v@[i as int]));
        i += 1;
    }
    r
}

// ── Aggregates ──────────────────────────────────────────────────────────────

/// The pipe path: the discovered one, else the broker's default path.
pub fn resolve_pipe_path(discovered: Option<String>) -> (r: String)
    ensures
        match discovered {
            Some(p) => r@ == p@,
            None => r@ == "\\\\.\\pipe\\LOCAL\\IoTService_IPC_Broker"@,
        },
{
    match discovered {
        Some(p) => p,
        None => string_of(&chars_of("\\\\.\\pipe\\LOCAL\\IoTService_IPC_Broker")),
    }
}

pub open spec fn ok_item() -> spec_fn(Result<WiFiItemInfo, String>) -> Option<WiFiItemInfo> {
    |r: Result<WiFiItemInfo, String>| match r {
        Ok(x) => Some(x),
        Err(_) => None,
    }
}

/// The count a WiFi list reports: the count reply, or 0 when it failed.
pub open spec fn count_or_zero(count: Result<u32, String>) -> u32 {
    match count {
        Ok(c) => c,
        Err(_) => 0,
    }
}

pub open spec fn reply_ok<T>(r: Result<T, String>) -> Option<T> {
    match r {
        Ok(x) => Some(x),
        Err(_) => None,
    }
}

proof fn lemma_filter_map_len<A, B>(s: Seq<A>, f: spec_fn(A) -> Option<B>)
    ensures
        s.filter_map(f).len() <= s.len(),
    decreases s.len(),
{
    if s.len() > 0 {
        lemma_filter_map_len(s.drop_last(), f);
    }
}

/// The WiFi list from the count reply, the status reply and the replies for
/// indices `0..count`, in index order: failed replies are left out, and so
/// is any reply past the count, so there are never more networks than the
/// count says.
pub fn get_wifi_list(
    count: Result<u32, String>,
    status: Result<WiFiStatusInfo, String>,
    items: Vec<Result<WiFiItemInfo, String>>,
) -> (l: IotWifiList)
    ensures
        l.count == count_or_zero(count),
        l.status == reply_ok(status),
        l.networks@ == items@.take(
            if items@.len() < l.count {
                items@.len() as int
            } else {
                l.count as int
            },
        ).filter_map(ok_item()),
        l.networks@.len() <= l.count,
{
    let c: u32 = match count {
        Ok(c) => c,
        Err(_) => 0,
    };
    let n: usize = if items.len() < c as usize {
        items.len()
    } else {
        c as usize
    };
    let ghost all = items@.take(n as int);
    let mut rest = items;
    while rest.len() > n
        invariant
            n <= rest@.len(),
            all == rest@.take(n as int),
        decreases rest.len(),
    {
        let ghost before = rest@;
        rest.pop();
        assert(rest@ == before.drop_last());
        assert(rest@.take(n as int) == before.take(n as int));
    }
    assert(rest@ == all);
    let mut networks: Vec<WiFiItemInfo> = Vec::new();
    let mut rev: Vec<WiFiItemInfo> = Vec::new();
    while rest.len() > 0
        invariant
            rest@.len() <= all.len(),
            rest@ == all.take(rest@.len() as int),
            all.filter_map(ok_item()) == rest@.filter_map(ok_item()) + rev@.reverse(),
        decreases rest.len(),
    {
        let ghost before = rest@;
        let o = rest.pop().unwrap();
        proof {
            assert(before.last() == o);
            assert(before.drop_last() == rest@);
            assert(rest@ == all.take(rest@.len() as int));
        }
        match o {
            Ok(x) => {
                rev.push(x);
                proof {
                    assert(ok_item()(o) == Some(x));
                    assert(before.filter_map(ok_item()) == rest@.filter_map(ok_item()) + seq![x]);
                    assert(rev@.reverse() == seq![x] + rev@.drop_last().reverse());
                }
            },
            Err(_) => {
                assert(ok_item()(o) is None);
                assert(before.filter_map(ok_item()) == rest@.filter_map(ok_item()));
            },
        }
    }
    assert(rest@.filter_map(ok_item()) == Seq::<WiFiItemInfo>::empty());
    while rev.len() > 0
        invariant
            all.filter_map(ok_item()) == networks@ + rev@.reverse(),
        decreases rev.len(),
    {
        let ghost before = rev@;
        let x = rev.pop().unwrap();
        proof {
            assert(before.reverse() == seq![x] + rev@.reverse());
        }
        networks.push(x);
    }
    proof {
        assert(networks@ == all.filter_map(ok_item()));
        lemma_filter_map_len(all, ok_item());
    }
    IotWifiList {
        status: match status {
            Ok(s) => Some(s),
            Err(_) => None,
        },
        count: c,
        networks,
    }
}

/// All device information in one record: whether the pipe is there, and
/// each query's reply, `None` where that query failed, whatever the others
/// gave.
pub fn get_device_info(
    pipe_available: bool,
    model: Result<String, String>,
    fw_version: Result<String, String>,
    bind_status: Result<BindStatusInfo, String>,
    device_id: Result<i64, String>,
    device_status: Result<String, String>,
    wifi_status: Result<WiFiStatusInfo, String>,
    wifi_network_count: Result<u32, String>,
) -> (d: IotDeviceInfo)
    ensures
        d.pipe_available == pipe_available,
        d.model == reply_ok(model),
        d.fw_version == reply_ok(fw_version),
        d.bind_status == reply_ok(bind_status),
        d.device_id == reply_ok(device_id),
        d.device_status == reply_ok(device_status),
        d.wifi_status == reply_ok(wifi_status),
        d.wifi_network_count == reply_ok(wifi_network_count),
{
    IotDeviceInfo {
        pipe_available,
        model: model.ok(),
        fw_version: fw_version.ok(),
        bind_status: bind_status.ok(),
        device_id: device_id.ok(),
        device_status: device_status.ok(),
        wifi_status: wifi_status.ok(),
        wifi_network_count: wifi_network_count.ok(),
    }
}


/// The WriteWiFiItem command: a password is sent only encrypted (with `key`
/// and `nonce_hex`, see `encrypt_with_key`).
pub fn write_wifi_item(item: &WiFiItem, key: &[u8], nonce_hex: &str) -> (r: Result<IpcRequest, String>)
    ensures
        match item.password {
            None => r matches Ok(req) && is_json_cmd(
                req,
                WRITE_WIFI_ITEM,
                wifi_item_json(item.ssid@, None, item.enable, item.uid, opt_string_view(item.fw_version)),
            ),
            Some(p) => match encrypt_spec(p@, key@, nonce_hex@) {
                Err(_) => r matches Err(e) && e@.take(33) == "Failed to encrypt WiFi password: "@,
                Ok(t) => (r matches Ok(req) ==> is_json_cmd(
                    req,
                    WRITE_WIFI_ITEM,
                    wifi_item_json(item.ssid@, Some(t), item.enable, item.uid, opt_string_view(item.fw_version)),
                )) && (encode_utf8(p@).len() <= AES_GCM_P_MAX ==> r is Ok),
            },
        },
{
    let password: Option<String> = match &item.password {
        None => None,
        Some(p) => match encrypt_with_key(p.as_str(), key, nonce_hex) {
            Ok(e) => Some(e),
            Err(e) => {
                let mut m = chars_of("Failed to encrypt WiFi password: ");
                proof {
                    reveal_strlit("Failed to encrypt WiFi password: ");
                }
                let ghost pre = m@;
                append_str(&mut m, e.as_str());
                assert(m@.take(33) == pre);
                return Err(string_of(&m));
            },
        },
    };
    match wifi_item_request(item, &password) {
        Ok(req) => Ok(req),
        Err(_) => Err(string_of(&chars_of("Serialize IPC request"))),
    }
}

// ── Decrypting a WiFi password ──────────────────────────────────────────────

/// What decrypting `{nonce_hex}:{ciphertext_hex}` gives: the password, or
/// the start of the error (the crate's message follows it).
pub open spec fn decrypt_spec(encrypted: Seq<char>, key: Seq<u8>) -> Result<Seq<char>, Seq<char>> {
    match find_seq(encrypted, seq![':']) {
        None => Err("Invalid encrypted password format"@),
        Some(k) => match hex_decoded(encode_utf8(encrypted.take(k))) {
            None => Err("Invalid nonce: "@),
            Some(nb) => if nb.len() < 12 {
                Err("AES-GCM nonce must be at least 12 bytes"@)
            } else {
                match hex_decoded(encode_utf8(encrypted.skip(k + 1))) {
                    None => Err("Invalid ciphertext: "@),
                    Some(cb) => match aes256gcm_open(wifi_aes_key(key), nb.take(12), cb) {
                        None => Err("AES-GCM decryption failed: "@),
                        Some(pb) => if valid_utf8(pb) {
                            Ok(decode_utf8(pb))
                        } else {
                            Err("Decrypted password is not valid UTF-8: "@)
                        },
                    },
                }
            },
        },
    }
}

proof fn lemma_hex_lower_shape(x: Seq<u8>)
    ensures
        hex_lower(x).len() == 2 * x.len(),
        forall|i: int|
            0 <= i < x.len() ==> #[trigger] hex_lower(x)[2 * i] == hex_lower_digit(x[i] / 16)
                && hex_lower(x)[2 * i + 1] == hex_lower_digit(x[i] % 16),
    decreases x.len(),
{
    if x.len() > 0 {
        lemma_hex_lower_shape(x.drop_last());
        assert forall|i: int| 0 <= i < x.len() implies #[trigger] hex_lower(x)[2 * i]
            == hex_lower_digit(x[i] / 16) && hex_lower(x)[2 * i + 1] == hex_lower_digit(x[i] % 16) by {
            if i < x.len() - 1 {
                assert(hex_lower(x)[2 * i] == hex_lower(x.drop_last())[2 * i]);
                assert(hex_lower(x)[2 * i + 1] == hex_lower(x.drop_last())[2 * i + 1]);
            }
        }
    }
}

proof fn lemma_hex_digit(n: u8)
    requires
        n < 16,
    ensures
        '\0' <= hex_lower_digit(n) <= '\u{7f}',
        hex_val(hex_lower_digit(n) as u8) == n,
{
    if n < 10 {
        assert(hex_lower_digit(n) as u8 == n + 48);
    } else {
        assert(hex_lower_digit(n) as u8 == n + 87);
    }
}

/// Hexadecimal text decodes to the bytes it was made from.
proof fn lemma_hex_roundtrip(x: Seq<u8>)
    ensures
        hex_decoded(encode_utf8(hex_lower(x))) == Some(x),
{
    let h = hex_lower(x);
    lemma_hex_lower_shape(x);
    assert forall|j: int| 0 <= j < h.len() implies '\0' <= #[trigger] h[j] <= '\u{7f}' && hex_val(
        h[j] as u8,
    ) >= 0 by {
        let i = j / 2;
        assert(0 <= i < x.len());
        if j % 2 == 0 {
            assert(j == 2 * i);
            assert(h[2 * i] == hex_lower_digit(x[i] / 16));
            lemma_hex_digit(x[i] / 16);
        } else {
            assert(j == 2 * i + 1);
            assert(h[2 * i] == hex_lower_digit(x[i] / 16));
            assert(h[2 * i + 1] == hex_lower_digit(x[i] % 16));
            lemma_hex_digit(x[i] % 16);
        }
    }
    assert(vstd::utf8::is_ascii_chars(h));
    vstd::utf8::is_ascii_chars_encode_utf8(h);
    let b = encode_utf8(h);
    assert(forall|j: int| 0 <= j < b.len() ==> hex_val(b[j]) >= 0);
    assert(b.len() % 2 == 0);
    let d = Seq::new(b.len() / 2, |i: int| (hex_val(b[2 * i]) * 16 + hex_val(b[2 * i + 1])) as u8);
    assert forall|i: int| 0 <= i < x.len() implies d[i] == x[i] by {
        lemma_hex_digit(x[i] / 16);
        lemma_hex_digit(x[i] % 16);
        assert(b[2 * i] == h[2 * i] as u8);
        assert(b[2 * i + 1] == h[2 * i + 1] as u8);
    }
    assert(d =~= x);
}

/// A `:` in a text puts the byte 0x3A in its UTF-8 encoding.
proof fn lemma_colon_byte(s: Seq<char>, j: int)
    requires
        0 <= j < s.len(),
        s[j] == ':',
    ensures
        exists|k: int| 0 <= k < encode_utf8(s).len() && encode_utf8(s)[k] == 0x3A,
    decreases j,
{
    let first = vstd::utf8::encode_scalar(s[0] as u32);
    assert(encode_utf8(s) == first + encode_utf8(s.drop_first()));
    if j == 0 {
        assert((0x3Au32 & 0x7F) as u8 == 0x3A) by (bit_vector);
        assert(first == seq![0x3Au8]);
        assert(encode_utf8(s)[0] == 0x3A);
    } else {
        lemma_colon_byte(s.drop_first(), j - 1);
        let k = choose|k: int|
            0 <= k < encode_utf8(s.drop_first()).len() && encode_utf8(s.drop_first())[k] == 0x3A;
        assert(encode_utf8(s)[first.len() + k] == 0x3A);
    }
}

proof fn lemma_find_first(s: Seq<char>, pat: Seq<char>, i: int, k: int)
    requires
        0 <= i <= k,
        occurs_at(s, pat, k),
        forall|j: int| i <= j < k ==> !occurs_at(s, pat, j),
    ensures
        find_from(s, pat, i) == Some(k),
    decreases k - i,
{
    if i < k {
        lemma_find_first(s, pat, i + 1, k);
    }
}

/// The text that encryption produces splits back, at its first `:`, into
/// the nonce text and the hexadecimal ciphertext.
proof fn lemma_encrypted_parts(p: Seq<char>, key: Seq<u8>, n: Seq<char>)
    requires
        encrypt_spec(p, key, n) is Ok,
    ensures
        ({
            let t = encrypt_spec(p, key, n)->Ok_0;
            let nb = hex_decoded(encode_utf8(n)).unwrap();
            &&& find_seq(t, seq![':']) == Some(n.len() as int)
            &&& t.take(n.len() as int) == n
            &&& hex_decoded(encode_utf8(n)) is Some
            &&& nb.len() >= 12
            &&& hex_decoded(encode_utf8(t.skip(n.len() + 1int))) == Some(
                aes256gcm_seal(wifi_aes_key(key), nb.take(12), encode_utf8(p)),
            )
        }),
{
    let t = encrypt_spec(p, key, n)->Ok_0;
    let nb = hex_decoded(encode_utf8(n)).unwrap();
    let ct = aes256gcm_seal(wifi_aes_key(key), nb.take(12), encode_utf8(p));
    assert(t == n + seq![':'] + hex_lower(ct));
    assert forall|j: int| 0 <= j < n.len() implies n[j] != ':' by {
        if n[j] == ':' {
            lemma_colon_byte(n, j);
            let k = choose|k: int| 0 <= k < encode_utf8(n).len() && encode_utf8(n)[k] == 0x3A;
            assert(hex_val(encode_utf8(n)[k]) < 0);
        }
    }
    assert forall|j: int| 0 <= j < n.len() implies !occurs_at(t, seq![':'], j) by {
        assert(t[j] == n[j]);
        assert(t.subrange(j, j + 1)[0] == t[j]);
    }
    assert(t.subrange(n.len() as int, n.len() + 1int) =~= seq![':']);
    lemma_find_first(t, seq![':'], 0, n.len() as int);
    assert(t.take(n.len() as int) =~= n);
    assert(t.skip(n.len() + 1int) =~= hex_lower(ct));
    lemma_hex_roundtrip(ct);
}

/// Decrypts a WiFi password `{nonce_hex}:{ciphertext_hex}` (the inverse of
/// `encrypt_with_key`): what `encrypt_with_key` made under the same key
/// decrypts to the password it was given.
pub fn decrypt_with_key(encrypted: &str, key: &[u8]) -> (r: Result<String, String>)
    ensures
        match decrypt_spec(encrypted@, key@) {
            Ok(t) => r matches Ok(x) && x@ == t,
            Err(m) => r matches Err(e) && e@.len() >= m.len() && e@.take(m.len() as int) == m,
        },
        forall|p: Seq<char>, n: Seq<char>|
            #![trigger encrypt_spec(p, key@, n)]
            encrypt_spec(p, key@, n) == Ok::<Seq<char>, Seq<char>>(encrypted@) && encode_utf8(p).len()
                <= AES_GCM_P_MAX ==> r is Ok && r->Ok_0@ == p,
{
    let v = chars_of(encrypted);
    let colon: Vec<char> = vec![':'];
    assert(colon@ =~= seq![':']);
    proof {
        crate::text::lemma_find_from(v@, seq![':'], 0);
    }
    let k = match crate::text::find_sub(&v, &colon) {
        Some(k) => k,
        None => {
            proof {
                assert forall|p: Seq<char>, n: Seq<char>|
                    #![trigger encrypt_spec(p, key@, n)]
                    encrypt_spec(p, key@, n) == Ok::<Seq<char>, Seq<char>>(encrypted@) implies false by {
                    lemma_encrypted_parts(p, key@, n);
                }
            }
            return Err(string_of(&chars_of("Invalid encrypted password format")));
        },
    };
    assert(crate::text::occurs_at(v@, seq![':'], k as int));
    assert(seq![':'].len() == 1);
    assert(k < v.len());
    let nonce_text = string_of(&crate::text::slice_chars(&v, 0, k));
    let ct_text = string_of(&crate::text::slice_chars(&v, k + 1, v.len()));
    assert(nonce_text@ == encrypted@.take(k as int));
    assert(ct_text@ == encrypted@.skip(k + 1));
    proof {
        assert forall|p: Seq<char>, n: Seq<char>|
            #![trigger encrypt_spec(p, key@, n)]
            encrypt_spec(p, key@, n) == Ok::<Seq<char>, Seq<char>>(encrypted@) implies {
            let nb = hex_decoded(encode_utf8(n)).unwrap();
            &&& nonce_text@ == n
            &&& hex_decoded(encode_utf8(n)) is Some
            &&& nb.len() >= 12
            &&& hex_decoded(encode_utf8(ct_text@)) == Some(
                aes256gcm_seal(wifi_aes_key(key@), nb.take(12), encode_utf8(p)),
            )
        } by {
            lemma_encrypted_parts(p, key@, n);
        }
    }
    let nonce_bytes = match hex_decode(nonce_text.as_str()) {
        Ok(b) => b,
        Err(e) => {
            let mut m = chars_of("Invalid nonce: ");
            let ghost pre = m@;
            append_str(&mut m, e.as_str());
            assert(m@.take(pre.len() as int) == pre);
            return Err(string_of(&m));
        },
    };
    if nonce_bytes.len() < 12 {
        let m = string_of(&chars_of("AES-GCM nonce must be at least 12 bytes"));
        assert(m@.take(m@.len() as int) == m@);
        return Err(m);
    }
    let nonce_12 = take_bytes(&nonce_bytes, 12);
    let ct = match hex_decode(ct_text.as_str()) {
        Ok(b) => b,
        Err(e) => {
            let mut m = chars_of("Invalid ciphertext: ");
            let ghost pre = m@;
            append_str(&mut m, e.as_str());
            assert(m@.take(pre.len() as int) == pre);
            return Err(string_of(&m));
        },
    };
    let aes_key = derive_aes_key(key);
    let plain = match aes256gcm_decrypt(aes_key.as_slice(), nonce_12.as_slice(), ct.as_slice()) {
        Ok(pb) => pb,
        Err(e) => {
            let mut m = chars_of("AES-GCM decryption failed: ");
            let ghost pre = m@;
            append_str(&mut m, e.as_str());
            assert(m@.take(pre.len() as int) == pre);
            return Err(string_of(&m));
        },
    };
    let ghost pb = plain@;
    match utf8_string(plain) {
        Ok(s) => {
            proof {
                assert forall|p: Seq<char>, n: Seq<char>|
                    #![trigger encrypt_spec(p, key@, n)]
                    encrypt_spec(p, key@, n) == Ok::<Seq<char>, Seq<char>>(encrypted@) && encode_utf8(
                        p,
                    ).len() <= AES_GCM_P_MAX implies s@ == p by {
                    vstd::utf8::encode_utf8_decode_utf8(p);
                }
            }
            Ok(s)
        },
        Err(e) => {
            proof {
                assert forall|p: Seq<char>, n: Seq<char>|
                    #![trigger encrypt_spec(p, key@, n)]
                    encrypt_spec(p, key@, n) == Ok::<Seq<char>, Seq<char>>(encrypted@) && encode_utf8(
                        p,
                    ).len() <= AES_GCM_P_MAX implies false by {
                    vstd::utf8::encode_utf8_valid_utf8(p);
                }
            }
            let mut m = chars_of("Decrypted password is not valid UTF-8: ");
            let ghost pre = m@;
            append_str(&mut m, e.as_str());
            assert(m@.take(pre.len() as int) == pre);
            Err(string_of(&m))
        },
    }
}

} // verus!
