//! Phone Link: its status, the deep links it may be opened with, and which
//! paired device its pairing metadata names.
use vstd::prelude::*;
use crate::errors::HardwareError;
use crate::text::{
    append_str, ascii_lower, chars_of, lower_seq, occurs_at_exec, owned, starts_with_seq, str_is,
    string_of, trim_ws, trim_ws_exec,
};

verus! {

/// Phone Link status for the user interface.
#[derive(Debug, Clone, PartialEq, Eq)]
pub struct PhoneLinkStatus {
    /// Whether Phone Link is installed on this PC.
    pub installed: bool,
    /// Whether a phone is paired.
    pub paired: bool,
    pub device_name: Option<String>,
    pub package_version: Option<String>,
    /// Whether Phone Link runs.
    pub running: bool,
}

impl Default for PhoneLinkStatus {
    fn default() -> (s: Self)
        ensures
            !s.installed && !s.paired && s.device_name is None && s.package_version is None
                && !s.running,
    {
        PhoneLinkStatus {
            installed: false,
            paired: false,
            device_name: None,
            package_version: None,
            running: false,
        }
    }
}

/// The status from what was probed: when Phone Link is not installed
/// nothing else counts.
pub fn get_phone_link_status(
    installed: bool,
    package_version: Option<String>,
    paired: bool,
    device_name: Option<String>,
    running: bool,
) -> (s: PhoneLinkStatus)
    ensures
        !installed ==> !s.installed && !s.paired && s.device_name is None && s.package_version
            is None && !s.running,
        installed ==> s == (PhoneLinkStatus { installed, paired, device_name, package_version, running }),
{
    if !installed {
        return PhoneLinkStatus::default();
    }
    PhoneLinkStatus { installed, paired, device_name, package_version, running }
}

/// A probe's output names something when it is not blank.
pub fn output_names_something(output: &str) -> (r: bool)
    ensures
        r == (trim_ws(output@).len() > 0),
{
    trim_ws_exec(&chars_of(output)).len() > 0
}

/// The trimmed output of a probe, unless it is blank.
pub fn trimmed_output(output: &str) -> (r: Option<String>)
    ensures
        trim_ws(output@).len() == 0 ==> r is None,
        trim_ws(output@).len() > 0 ==> r is Some && r.unwrap()@ == trim_ws(output@),
{
    let t = trim_ws_exec(&chars_of(output));
    if t.len() == 0 {
        None
    } else {
        Some(string_of(&t))
    }
}

// ── Deep links ──────────────────────────────────────────────────────────────

pub open spec fn start_args(target: Seq<char>) -> Seq<Seq<char>> {
    seq!["/c"@, "start"@, ""@, target]
}

pub open spec fn views(v: Seq<String>) -> Seq<Seq<char>> {
    v.map_values(|s: String| s@)
}

fn start_command(target: String) -> (r: Vec<String>)
    ensures
        views(r@) == start_args(target@),
{
    let r: Vec<String> = vec![owned("/c"), owned("start"), owned(""), target];
    assert(views(r@) =~= start_args(target@));
    r
}

fn not_supported(msg: &str) -> (e: HardwareError)
    ensures
        e matches HardwareError::NotSupported(m) && m@ == msg@,
{
    HardwareError::NotSupported(owned(msg))
}

/// The `cmd` arguments that open Phone Link (`ms-phone:`).
pub fn launch_phone_link(on_windows: bool) -> (r: Result<Vec<String>, HardwareError>)
    ensures
        on_windows ==> (r matches Ok(a) && views(a@) == start_args("ms-phone:"@)),
        !on_windows ==> (r matches Err(HardwareError::NotSupported(m)) && m@
            == "Phone Link only available on Windows"@),
{
    if on_windows {
        Ok(start_command(owned("ms-phone:")))
    } else {
        Err(not_supported("Phone Link only available on Windows"))
    }
}

/// The features a deep link may open.
pub open spec fn allowed_feature(f: Seq<char>) -> bool {
    f == "Phone"@ || f == "Messages"@ || f == "Photos"@ || f == "ScreenMirror"@ || f == "Apps"@
}

/// The `cmd` arguments that open one Phone Link feature (`ms-phone:<feature>`);
/// only the allowed features are accepted, so nothing else reaches the URI.
pub fn launch_phone_link_feature(feature: &str, on_windows: bool) -> (r: Result<Vec<String>, HardwareError>)
    ensures
        !allowed_feature(feature@) ==> (r matches Err(HardwareError::Other(m)) && m@
            == "Unknown Phone Link feature: '"@ + feature@
            + "'. Allowed: [\"Phone\", \"Messages\", \"Photos\", \"ScreenMirror\", \"Apps\"]"@),
        allowed_feature(feature@) && on_windows ==> (r matches Ok(a) && views(a@) == start_args(
            "ms-phone:"@ + feature@,
        )),
        allowed_feature(feature@) && !on_windows ==> (r matches Err(HardwareError::NotSupported(m))
            && m@ == "Phone Link only available on Windows"@),
{
    let ok = str_is(feature, "Phone") || str_is(feature, "Messages") || str_is(feature, "Photos")
        || str_is(feature, "ScreenMirror") || str_is(feature, "Apps");
    if !ok {
        let mut v = chars_of("Unknown Phone Link feature: '");
        append_str(&mut v, feature);
        append_str(
            &mut v,
            "'. Allowed: [\"Phone\", \"Messages\", \"Photos\", \"ScreenMirror\", \"Apps\"]",
        );
        return Err(HardwareError::Other(string_of(&v)));
    }
    if !on_windows {
        return Err(not_supported("Phone Link only available on Windows"));
    }
    let mut u = chars_of("ms-phone:");
    append_str(&mut u, feature);
    Ok(start_command(string_of(&u)))
}

/// The `cmd` arguments that open the Phone Link page of Settings.
pub fn open_phone_link_settings(on_windows: bool) -> (r: Result<Vec<String>, HardwareError>)
    ensures
        on_windows ==> (r matches Ok(a) && views(a@) == start_args("ms-settings:mobile-devices"@)),
        !on_windows ==> (r matches Err(HardwareError::NotSupported(m)) && m@
            == "Phone Link settings only available on Windows"@),
{
    if on_windows {
        Ok(start_command(owned("ms-settings:mobile-devices")))
    } else {
        Err(not_supported("Phone Link settings only available on Windows"))
    }
}

/// A pairing link must use the `ms-phone-link:` or `ms-phone:` scheme
/// (ASCII case ignored).
pub open spec fn pairing_scheme_ok(uri: Seq<char>) -> bool {
    starts_with_seq(lower_seq(uri), "ms-phone-link:"@) || starts_with_seq(lower_seq(uri), "ms-phone:"@)
}

/// The `cmd` arguments that open a pairing link; any other protocol is
/// refused.
pub fn launch_phone_link_pairing(uri: &str, on_windows: bool) -> (r: Result<Vec<String>, HardwareError>)
    ensures
        uri@.len() == 0 ==> (r matches Err(HardwareError::Other(m)) && m@
            == "Empty Phone Link pairing URI"@),
        uri@.len() > 0 && !pairing_scheme_ok(uri@) ==> (r matches Err(HardwareError::Other(m)) && m@
            == "Refusing to open non-Phone-Link URI: "@ + uri@),
        uri@.len() > 0 && pairing_scheme_ok(uri@) && on_windows ==> (r matches Ok(a) && views(a@)
            == start_args(uri@)),
        uri@.len() > 0 && pairing_scheme_ok(uri@) && !on_windows ==> (r matches Err(
            HardwareError::NotSupported(m),
        ) && m@ == "Phone Link only available on Windows"@),
{
    let v = chars_of(uri);
    if v.len() == 0 {
        return Err(HardwareError::Other(owned("Empty Phone Link pairing URI")));
    }
    let lower = ascii_lower(&v);
    if !occurs_at_exec(&lower, &chars_of("ms-phone-link:"), 0) && !occurs_at_exec(
        &lower,
        &chars_of("ms-phone:"),
        0,
    ) {
        let mut m = chars_of("Refusing to open non-Phone-Link URI: ");
        append_str(&mut m, uri);
        return Err(HardwareError::Other(string_of(&m)));
    }
    if !on_windows {
        return Err(not_supported("Phone Link only available on Windows"));
    }
    Ok(start_command(owned(uri)))
}

// ── Pairing metadata ────────────────────────────────────────────────────────

/// One entry of the pairing metadata: whether it is linked and, when
/// present, its client type and display name.
#[derive(Debug, Clone, PartialEq, Eq)]
pub struct MetadataEntry {
    pub is_linked: bool,
    pub client_type: Option<String>,
    pub display_name: String,
}

/// The pairing state read from the entries in the order given: the first
/// entry of type `LTW` (the phone) decides, paired with its name when it
/// is linked; before it, any other linked device except the PC (`WEA`)
/// counts as paired. Entries without a type are skipped.
pub open spec fn pair_scan(es: Seq<MetadataEntry>, paired: bool) -> (bool, Option<Seq<char>>)
    decreases es.len(),
{
    if es.len() == 0 {
        (paired, None)
    } else {
        let e = es[0];
        match e.client_type {
            None => pair_scan(es.drop_first(), paired),
            Some(t) => if t@ == "LTW"@ {
                if e.is_linked {
                    (true, Some(e.display_name@))
                } else {
                    (paired, None)
                }
            } else if e.is_linked && t@ != "WEA"@ {
                pair_scan(es.drop_first(), true)
            } else {
                pair_scan(es.drop_first(), paired)
            },
        }
    }
}

/// Whether a phone is paired, and its name, from the metadata entries in
/// the order they were read.
pub fn parse_device_metadatas(entries: &Vec<MetadataEntry>) -> (r: (bool, Option<String>))
    ensures
        r.0 == pair_scan(entries@, false).0,
        match pair_scan(entries@, false).1 {
            Some(n) => r.1 is Some && r.1.unwrap()@ == n,
            None => r.1 is None,
        },
{
    let mut paired = false;
    let mut i: usize = 0;
    assert(entries@.skip(0) =~= entries@);
    while i < entries.len()
        invariant
            i <= entries.len(),
            pair_scan(entries@, false) == pair_scan(entries@.skip(i as int), paired),
        decreases entries.len() - i,
    {
        assert(entries@.skip(i as int)[0] == entries@[i as int]);
        assert(entries@.skip(i as int).drop_first() == entries@.skip(i as int + 1));
        let e = &entries[i];
        match &e.client_type {
            None => {},
            Some(t) => {
                if str_is(t.as_str(), "LTW") {
                    if e.is_linked {
                        return (true, Some(owned(e.display_name.as_str())));
                    }
                    return (paired, None);
                }
                if e.is_linked && !str_is(t.as_str(), "WEA") {
                    paired = true;
                }
            },
        }
        i += 1;
    }
    (paired, None)
}

/// The first non-empty name.
pub open spec fn first_nonempty(names: Seq<Seq<char>>) -> Option<Seq<char>>
    decreases names.len(),
{
    if names.len() == 0 {
        None
    } else if names[0].len() > 0 {
        Some(names[0])
    } else {
        first_nonempty(names.drop_first())
    }
}

/// The paired device's name: the metadata name when it is not empty, else
/// the first non-empty name found in the legacy registry values.
pub open spec fn device_name_of(from_metadata: Option<Seq<char>>, registry: Seq<Seq<char>>) -> Option<Seq<char>> {
    match from_metadata {
        Some(n) => if n.len() > 0 {
            Some(n)
        } else {
            first_nonempty(registry)
        },
        None => first_nonempty(registry),
    }
}

pub fn choose_device_name(from_metadata: Option<String>, registry: &Vec<String>) -> (r: Option<String>)
    ensures
        match device_name_of(
            match from_metadata {
                Some(n) => Some(n@),
                None => None,
            },
            views(registry@),
        ) {
            Some(n) => r is Some && r.unwrap()@ == n,
            None => r is None,
        },
{
    if let Some(n) = from_metadata {
        if !n.as_str().is_empty() {
            return Some(n);
        }
    }
    let mut i: usize = 0;
    assert(views(registry@).skip(0) =~= views(registry@));
    while i < registry.len()
        invariant
            i <= registry.len(),
            first_nonempty(views(registry@)) == first_nonempty(views(registry@).skip(i as int)),
            match from_metadata {
                Some(n) => n@.len() == 0,
                None => true,
            },
        decreases registry.len() - i,
    {
        assert(views(registry@).skip(i as int)[0] == registry@[i as int]@);
        assert(views(registry@).skip(i as int).drop_first() == views(registry@).skip(i as int + 1));
        if !registry[i].as_str().is_empty() {
            return Some(owned(registry[i].as_str()));
        }
        i += 1;
    }
    None
}

} // verus!
