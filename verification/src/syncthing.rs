//! Syncthing REST client: the endpoint URLs and the compact status shown by
//! the UI.
use vstd::prelude::*;
use crate::iotservice::{decimal, decimal_u64};
use crate::text::{
    append_chars, append_str, chars_of, eq_pred, occurs_at_exec, slice_chars, starts_with_seq,
    string_of, trail_count, trim_ws, trim_ws_exec,
};

verus! {

pub const DEFAULT_ADDR: &'static str = "127.0.0.1:8384";

/// Where the Syncthing daemon listens, and its API key.
#[derive(Debug, Clone, PartialEq, Eq)]
pub struct SyncthingConfig {
    pub address: String,
    pub api_key: String,
}

impl Default for SyncthingConfig {
    fn default() -> (c: Self)
        ensures
            c.address@ == "127.0.0.1:8384"@,
            c.api_key@.len() == 0,
    {
        SyncthingConfig {
            address: string_of(&chars_of("127.0.0.1:8384")),
            api_key: string_of(&Vec::new()),
        }
    }
}

/// A folder from `config/folders`.
#[derive(Debug, Clone, PartialEq, Eq)]
pub struct SyncthingFolder {
    pub id: String,
    pub label: String,
    pub path: String,
    pub paused: bool,
    pub type_: Option<String>,
}

/// The fields of `system/status` that the UI shows.
#[derive(Debug, Clone, PartialEq, Eq)]
pub struct SyncthingSystemInfo {
    pub my_id: String,
    pub version: String,
    pub uptime: u32,
    pub connection_service_status: Option<String>,
}

/// The compact status: is the daemon reachable, which version, which folders.
#[derive(Debug, Clone, PartialEq, Eq)]
pub struct SyncthingStatus {
    pub reachable: bool,
    pub address: String,
    pub version: Option<String>,
    pub device_id: Option<String>,
    pub uptime_secs: Option<u32>,
    pub connection_service_status: Option<String>,
    pub error: Option<String>,
    pub folders: Vec<SyncthingFolder>,
}

/// One `events` entry.
#[derive(Debug, Clone, PartialEq, Eq)]
pub struct SyncthingEvent {
    pub id: u64,
    pub event_type: String,
    pub time: String,
}

/// `s` without trailing `/`.
pub open spec fn strip_slashes(s: Seq<char>) -> Seq<char> {
    s.take(s.len() - trail_count(s, eq_pred('/')))
}

/// The base URL of the daemon: the default when no address is set, the
/// address without trailing slashes when it has an http(s) scheme, else the
/// address after `http://`.
pub open spec fn base_url_spec(address: Seq<char>) -> Seq<char> {
    let a = trim_ws(address);
    if a.len() == 0 {
        "http://127.0.0.1:8384"@
    } else if starts_with_seq(a, "http://"@) || starts_with_seq(a, "https://"@) {
        strip_slashes(a)
    } else {
        "http://"@ + a
    }
}

fn strip_slashes_exec(v: &Vec<char>) -> (r: Vec<char>)
    ensures
        r@ == strip_slashes(v@),
{
    let mut n: usize = v.len();
    assert(v@.take(v.len() as int) == v@);
    while n > 0 && v[n - 1] == '/'
        invariant
            n <= v.len(),
            trail_count(v@, eq_pred('/')) == (v.len() - n) + trail_count(v@.take(n as int), eq_pred('/')),
        decreases n,
    {
        assert(v@.take(n as int).drop_last() == v@.take(n - 1));
        assert(v@.take(n as int).last() == v@[n - 1]);
        n -= 1;
    }
    proof {
        if n > 0 {
            assert(v@.take(n as int).last() == v@[n - 1]);
        }
        assert(v@.take(v.len() as int) == v@);
    }
    slice_chars(v, 0, n)
}

/// The daemon's base URL for a configuration.
pub fn base_url(cfg: &SyncthingConfig) -> (r: String)
    ensures
        r@ == base_url_spec(cfg.address@),
{
    let a = trim_ws_exec(&chars_of(cfg.address.as_str()));
    if a.len() == 0 {
        return string_of(&chars_of("http://127.0.0.1:8384"));
    }
    if occurs_at_exec(&a, &chars_of("http://"), 0) || occurs_at_exec(&a, &chars_of("https://"), 0) {
        string_of(&strip_slashes_exec(&a))
    } else {
        let mut r = chars_of("http://");
        append_chars(&mut r, &a);
        string_of(&r)
    }
}

fn url_with(cfg: &SyncthingConfig, tail: &str) -> (r: String)
    ensures
        r@ == base_url_spec(cfg.address@) + tail@,
{
    let mut v = chars_of(base_url(cfg).as_str());
    append_str(&mut v, tail);
    string_of(&v)
}

/// URL of `GET /rest/system/status`.
pub fn system_status_url(cfg: &SyncthingConfig) -> (r: String)
    ensures
        r@ == base_url_spec(cfg.address@) + "/rest/system/status"@,
{
    url_with(cfg, "/rest/system/status")
}

/// URL of `GET /rest/config/folders`.
pub fn folders_url(cfg: &SyncthingConfig) -> (r: String)
    ensures
        r@ == base_url_spec(cfg.address@) + "/rest/config/folders"@,
{
    url_with(cfg, "/rest/config/folders")
}

/// URL of one folder's configuration (read, then written back to pause or
/// resume it).
pub fn folder_url(cfg: &SyncthingConfig, folder_id: &str) -> (r: String)
    ensures
        r@ == base_url_spec(cfg.address@) + "/rest/config/folders/"@ + folder_id@,
{
    let mut v = chars_of(url_with(cfg, "/rest/config/folders/").as_str());
    append_str(&mut v, folder_id);
    string_of(&v)
}

/// URL of a non-blocking `events` poll from cursor `since`.
pub fn events_url(cfg: &SyncthingConfig, since: u64, limit: u32) -> (r: String)
    ensures
        r@ == base_url_spec(cfg.address@) + "/rest/events?since="@ + decimal(since as nat) + "&limit="@
            + decimal(limit as nat) + "&timeout=0"@,
{
    let mut v = chars_of(url_with(cfg, "/rest/events?since=").as_str());
    append_chars(&mut v, &decimal_u64(since));
    append_str(&mut v, "&limit=");
    append_chars(&mut v, &decimal_u64(limit as u64));
    append_str(&mut v, "&timeout=0");
    string_of(&v)
}

/// The UI status from the answers to `system/status` and `config/folders`:
/// reachable when both succeeded, else the first error.
pub fn get_status(
    cfg: &SyncthingConfig,
    system: Result<SyncthingSystemInfo, String>,
    folders: Result<Vec<SyncthingFolder>, String>,
) -> (s: SyncthingStatus)
    ensures
        s.address@ == base_url_spec(cfg.address@),
        match (system, folders) {
            (Ok(sys), Ok(f)) => s.reachable && s.version == Some(sys.version) && s.device_id == Some(
                sys.my_id,
            ) && s.uptime_secs == Some(sys.uptime) && s.connection_service_status
                == sys.connection_service_status && s.error is None && s.folders == f,
            (Err(e), _) => !s.reachable && s.error == Some(e) && s.version is None && s.device_id is None
                && s.uptime_secs is None && s.connection_service_status is None && s.folders@.len() == 0,
            (Ok(_), Err(e)) => !s.reachable && s.error == Some(e) && s.version is None && s.device_id is None
                && s.uptime_secs is None && s.connection_service_status is None && s.folders@.len() == 0,
        },
{
    let address = base_url(cfg);
    match (system, folders) {
        (Ok(sys), Ok(f)) => SyncthingStatus {
            reachable: true,
            address,
            version: Some(sys.version),
            device_id: Some(sys.my_id),
            uptime_secs: Some(sys.uptime),
            connection_service_status: sys.connection_service_status,
            error: None,
            folders: f,
        },
        (Err(e), _) | (_, Err(e)) => SyncthingStatus {
            reachable: false,
            address,
            version: None,
            device_id: None,
            uptime_secs: None,
            connection_service_status: None,
            error: Some(e),
            folders: Vec::new(),
        },
    }
}

} // verus!
