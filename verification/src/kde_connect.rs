//! KDE Connect: the identity this PC announces, the devices read from the
//! identity replies, and the outcome of a ping.
use vstd::prelude::*;
use crate::localsend::PeerAddr;
use crate::text::{append_str, chars_of, chars_eq, contains_str, find_seq, owned, str_is, string_of};

verus! {

pub const KDE_UDP_PORT: u16 = 1716;
pub const KDE_BROADCAST: &'static str = "255.255.255.255";
pub const KDE_PROTOCOL_VERSION: u32 = 7;
pub const KDE_DEVICE_TYPE: &'static str = "desktop";
pub const KDE_DEVICE_NAME: &'static str = "MiControl";

/// The identity body broadcast and echoed by KDE Connect devices.
#[derive(Debug, Clone, PartialEq, Eq)]
pub struct KdeIdentityBody {
    pub device_id: String,
    pub device_name: String,
    pub protocol_version: u32,
    pub device_type: String,
    pub incoming_capabilities: Vec<String>,
    pub outgoing_capabilities: Vec<String>,
    /// `Some(false)`: the peer accepts unpaired plugin messages.
    pub pairing: Option<bool>,
}

/// A discovered KDE Connect device.
#[derive(Debug, Clone, PartialEq)]
pub struct KdeDevice {
    pub device_id: String,
    pub device_name: String,
    pub device_type: String,
    pub tcp_port: u16,
    pub addr: PeerAddr,
    pub protocol_version: u32,
    pub incoming_capabilities: Vec<String>,
    pub pairing_optional: bool,
}

pub open spec fn views(v: Seq<String>) -> Seq<Seq<char>> {
    v.map_values(|s: String| s@)
}

pub open spec fn capability_table() -> Seq<Seq<char>> {
    seq!["kdeconnect.ping"@, "kdeconnect.clipboard"@, "kdeconnect.notification"@]
}

/// The capabilities this PC advertises.
pub fn our_capabilities() -> (r: Vec<String>)
    ensures
        views(r@) == capability_table(),
{
    let r: Vec<String> = vec![
        owned("kdeconnect.ping"),
        owned("kdeconnect.clipboard"),
        owned("kdeconnect.notification"),
    ];
    assert(views(r@) =~= capability_table());
    r
}

/// The identity body this PC broadcasts under `device_id`.
pub fn build_identity(device_id: String) -> (b: KdeIdentityBody)
    ensures
        b.device_id == device_id,
        b.device_name@ == KDE_DEVICE_NAME@,
        b.protocol_version == KDE_PROTOCOL_VERSION,
        b.device_type@ == KDE_DEVICE_TYPE@,
        views(b.incoming_capabilities@) == capability_table(),
        views(b.outgoing_capabilities@) == capability_table(),
        b.pairing == Some(false),
{
    KdeIdentityBody {
        device_id,
        device_name: owned(KDE_DEVICE_NAME),
        protocol_version: KDE_PROTOCOL_VERSION,
        device_type: owned(KDE_DEVICE_TYPE),
        incoming_capabilities: our_capabilities(),
        outgoing_capabilities: our_capabilities(),
        pairing: Some(false),
    }
}

/// The device of an identity reply from `addr`. `msg_type` is the
/// packet's type and `body` its body, when present, as read (or the reason
/// it could not be read). Replies of another type, without a body, with an
/// unreadable body or carrying our own id are refused.
pub fn parse_identity_payload(
    msg_type: &str,
    body: Option<Result<KdeIdentityBody, String>>,
    own_id: &str,
    addr: PeerAddr,
) -> (r: Result<KdeDevice, String>)
    ensures
        msg_type@ != "kdeconnect.identity"@ ==> (r matches Err(m) && m@
            == "unexpected message type "@ + msg_type@),
        msg_type@ == "kdeconnect.identity"@ ==> match body {
            None => r matches Err(m) && m@ == "identity without body"@,
            Some(Err(e)) => r matches Err(m) && m@ == "invalid identity body: "@ + e@,
            Some(Ok(b)) => if b.device_id@ == own_id@ {
                r matches Err(m) && m@ == "self packet"@
            } else {
                r matches Ok(d) && d.device_id == b.device_id && d.device_name == b.device_name
                    && d.device_type == b.device_type && d.tcp_port == 0 && d.addr == addr
                    && d.protocol_version == b.protocol_version && d.incoming_capabilities
                    == b.incoming_capabilities && d.pairing_optional == (b.pairing == Some(false))
            },
        },
{
    if !str_is(msg_type, "kdeconnect.identity") {
        let mut v = chars_of("unexpected message type ");
        append_str(&mut v, msg_type);
        return Err(string_of(&v));
    }
    let b = match body {
        None => return Err(owned("identity without body")),
        Some(Err(e)) => {
            let mut v = chars_of("invalid identity body: ");
            append_str(&mut v, e.as_str());
            return Err(string_of(&v));
        },
        Some(Ok(b)) => b,
    };
    if str_is(b.device_id.as_str(), own_id) {
        return Err(owned("self packet"));
    }
    let pairing_optional = match b.pairing {
        Some(p) => !p,
        None => false,
    };
    Ok(
        KdeDevice {
            device_id: b.device_id,
            device_name: b.device_name,
            device_type: b.device_type,
            tcp_port: 0,
            addr,
            protocol_version: b.protocol_version,
            incoming_capabilities: b.incoming_capabilities,
            pairing_optional,
        },
    )
}

/// No two devices share an id.
pub open spec fn distinct_devices(ds: Seq<KdeDevice>) -> bool {
    forall|i: int, j: int|
        0 <= i < j < ds.len() ==> (#[trigger] ds[i]).device_id@ != (#[trigger] ds[j]).device_id@
}

pub open spec fn has_device(ds: Seq<KdeDevice>, id: Seq<char>) -> bool {
    exists|i: int| 0 <= i < ds.len() && (#[trigger] ds[i]).device_id@ == id
}

/// Records a discovered device, on the well-known TCP port, unless one
/// with its id is known; the list never holds a device twice.
pub fn add_device(found: &mut Vec<KdeDevice>, dev: KdeDevice)
    ensures
        has_device(old(found)@, dev.device_id@) ==> final(found)@ == old(found)@,
        !has_device(old(found)@, dev.device_id@) ==> final(found)@ == old(found)@.push(
            KdeDevice { tcp_port: KDE_UDP_PORT, ..dev },
        ),
        distinct_devices(old(found)@) ==> distinct_devices(final(found)@),
{
    let id = chars_of(dev.device_id.as_str());
    let mut i: usize = 0;
    while i < found.len()
        invariant
            i <= found.len(),
            id@ == dev.device_id@,
            forall|k: int| 0 <= k < i ==> (#[trigger] found@[k]).device_id@ != id@,
        decreases found.len() - i,
    {
        if chars_eq(&chars_of(found[i].device_id.as_str()), &id) {
            return;
        }
        i += 1;
    }
    let mut d = dev;
    d.tcp_port = KDE_UDP_PORT;
    found.push(d);
}

/// The TCP port a ping goes to: the device's, or the well-known one when
/// none was negotiated.
pub fn ping_port(device: &KdeDevice) -> (p: u16)
    ensures
        p == if device.tcp_port == 0 {
            KDE_UDP_PORT
        } else {
            device.tcp_port
        },
{
    if device.tcp_port == 0 {
        KDE_UDP_PORT
    } else {
        device.tcp_port
    }
}

/// What `String::from_utf8_lossy` gives for some bytes.
pub uninterp spec fn utf8_lossy(bytes: Seq<u8>) -> Seq<char>;

/// `String::from_utf8_lossy`: the bytes as text, invalid sequences replaced
/// by U+FFFD.
#[verifier::external_body]
fn from_utf8_lossy(bytes: &[u8]) -> (s: String)
    ensures
        s@ == utf8_lossy(bytes@),
{
    String::from_utf8_lossy(bytes).into_owned()
}

/// Whether what the device sent back holds a ping reply.
pub fn ping_replied(received: &[u8]) -> (r: bool)
    ensures
        r == find_seq(utf8_lossy(received@), "kdeconnect.ping.reply"@) is Some,
{
    let text = from_utf8_lossy(received);
    contains_str(text.as_str(), "kdeconnect.ping.reply")
}

} // verus!
