//! Performance modes: their hardware values and names, which mode the stored
//! state describes, and the Windows power overlay that goes with each.
use vstd::prelude::*;
use crate::text::{
    append_str, ascii_lower, chars_of, contains_str, find_from, find_seq, find_sub, lower_seq,
    occurs_at, string_of, to_lowercase, unicode_lower,
};

verus! {

/// The performance modes of the EC.
#[derive(Clone, Copy, Debug, PartialEq, Eq, Structural)]
pub enum PerformanceMode {
    Silence,
    Balance,
    Turbo,
    Decepticon,
    Overdrive,
    OverdriveHigh,
    OverdriveMax,
    SmartAdaptive,
    Smart,
    LongBattery,
    SmartAcceleration,
}

pub open spec fn hw_value(m: PerformanceMode) -> u32 {
    match m {
        PerformanceMode::Silence => 0,
        PerformanceMode::Balance => 1,
        PerformanceMode::Turbo => 2,
        PerformanceMode::Decepticon => 3,
        PerformanceMode::Overdrive => 4,
        PerformanceMode::OverdriveHigh => 5,
        PerformanceMode::OverdriveMax => 6,
        PerformanceMode::SmartAdaptive => 9,
        PerformanceMode::Smart => 10,
        PerformanceMode::LongBattery => 11,
        PerformanceMode::SmartAcceleration => 14,
    }
}

pub open spec fn mode_of_hw(v: u32) -> Option<PerformanceMode> {
    if v == 0 {
        Some(PerformanceMode::Silence)
    } else if v == 1 {
        Some(PerformanceMode::Balance)
    } else if v == 2 {
        Some(PerformanceMode::Turbo)
    } else if v == 3 {
        Some(PerformanceMode::Decepticon)
    } else if v == 4 {
        Some(PerformanceMode::Overdrive)
    } else if v == 5 {
        Some(PerformanceMode::OverdriveHigh)
    } else if v == 6 {
        Some(PerformanceMode::OverdriveMax)
    } else if v == 9 {
        Some(PerformanceMode::SmartAdaptive)
    } else if v == 10 {
        Some(PerformanceMode::Smart)
    } else if v == 11 {
        Some(PerformanceMode::LongBattery)
    } else if v == 14 {
        Some(PerformanceMode::SmartAcceleration)
    } else {
        None
    }
}

/// The snake_case name of a mode, as the settings and hotkeys write it.
pub open spec fn mode_name(m: PerformanceMode) -> Seq<char> {
    match m {
        PerformanceMode::Silence => "silence"@,
        PerformanceMode::Balance => "balance"@,
        PerformanceMode::Turbo => "turbo"@,
        PerformanceMode::Decepticon => "decepticon"@,
        PerformanceMode::Overdrive => "overdrive"@,
        PerformanceMode::OverdriveHigh => "overdrive_high"@,
        PerformanceMode::OverdriveMax => "overdrive_max"@,
        PerformanceMode::SmartAdaptive => "smart_adaptive"@,
        PerformanceMode::Smart => "smart"@,
        PerformanceMode::LongBattery => "long_battery"@,
        PerformanceMode::SmartAcceleration => "smart_acceleration"@,
    }
}

/// The mode named `s`, if any.
pub open spec fn mode_named(s: Seq<char>) -> Option<PerformanceMode> {
    if s == "silence"@ {
        Some(PerformanceMode::Silence)
    } else if s == "balance"@ {
        Some(PerformanceMode::Balance)
    } else if s == "turbo"@ {
        Some(PerformanceMode::Turbo)
    } else if s == "decepticon"@ {
        Some(PerformanceMode::Decepticon)
    } else if s == "overdrive"@ {
        Some(PerformanceMode::Overdrive)
    } else if s == "overdrive_high"@ {
        Some(PerformanceMode::OverdriveHigh)
    } else if s == "overdrive_max"@ {
        Some(PerformanceMode::OverdriveMax)
    } else if s == "smart_adaptive"@ {
        Some(PerformanceMode::SmartAdaptive)
    } else if s == "smart"@ {
        Some(PerformanceMode::Smart)
    } else if s == "long_battery"@ {
        Some(PerformanceMode::LongBattery)
    } else if s == "smart_acceleration"@ {
        Some(PerformanceMode::SmartAcceleration)
    } else {
        None
    }
}

fn str_eq(a: &String, b: &str) -> (r: bool)
    ensures
        r == (a@ == b@),
{
    let bs = string_of(&chars_of(b));
    *a == bs
}

impl PerformanceMode {
    /// The value that the EC, the VHF device and the registry use.
    pub fn to_hw_value(self) -> (v: u32)
        ensures
            v == hw_value(self),
    {
        match self {
            PerformanceMode::Silence => 0,
            PerformanceMode::Balance => 1,
            PerformanceMode::Turbo => 2,
            PerformanceMode::Decepticon => 3,
            PerformanceMode::Overdrive => 4,
            PerformanceMode::OverdriveHigh => 5,
            PerformanceMode::OverdriveMax => 6,
            PerformanceMode::SmartAdaptive => 9,
            PerformanceMode::Smart => 10,
            PerformanceMode::LongBattery => 11,
            PerformanceMode::SmartAcceleration => 14,
        }
    }

    /// The mode with hardware value `v`.
    pub fn from_hw_value(v: u32) -> (m: Option<PerformanceMode>)
        ensures
            m == mode_of_hw(v),
    {
        if v == 0 {
            Some(PerformanceMode::Silence)
        } else if v == 1 {
            Some(PerformanceMode::Balance)
        } else if v == 2 {
            Some(PerformanceMode::Turbo)
        } else if v == 3 {
            Some(PerformanceMode::Decepticon)
        } else if v == 4 {
            Some(PerformanceMode::Overdrive)
        } else if v == 5 {
            Some(PerformanceMode::OverdriveHigh)
        } else if v == 6 {
            Some(PerformanceMode::OverdriveMax)
        } else if v == 9 {
            Some(PerformanceMode::SmartAdaptive)
        } else if v == 10 {
            Some(PerformanceMode::Smart)
        } else if v == 11 {
            Some(PerformanceMode::LongBattery)
        } else if v == 14 {
            Some(PerformanceMode::SmartAcceleration)
        } else {
            None
        }
    }

    /// The mode's snake_case name.
    pub fn name(self) -> (s: &'static str)
        ensures
            s@ == mode_name(self),
    {
        match self {
            PerformanceMode::Silence => "silence",
            PerformanceMode::Balance => "balance",
            PerformanceMode::Turbo => "turbo",
            PerformanceMode::Decepticon => "decepticon",
            PerformanceMode::Overdrive => "overdrive",
            PerformanceMode::OverdriveHigh => "overdrive_high",
            PerformanceMode::OverdriveMax => "overdrive_max",
            PerformanceMode::SmartAdaptive => "smart_adaptive",
            PerformanceMode::Smart => "smart",
            PerformanceMode::LongBattery => "long_battery",
            PerformanceMode::SmartAcceleration => "smart_acceleration",
        }
    }

    /// The mode whose snake_case name is `s`.
    pub fn from_name(s: &str) -> (m: Option<PerformanceMode>)
        ensures
            m == mode_named(s@),
    {
        let v = string_of(&chars_of(s));
        if str_eq(&v, "silence") {
            Some(PerformanceMode::Silence)
        } else if str_eq(&v, "balance") {
            Some(PerformanceMode::Balance)
        } else if str_eq(&v, "turbo") {
            Some(PerformanceMode::Turbo)
        } else if str_eq(&v, "decepticon") {
            Some(PerformanceMode::Decepticon)
        } else if str_eq(&v, "overdrive") {
            Some(PerformanceMode::Overdrive)
        } else if str_eq(&v, "overdrive_high") {
            Some(PerformanceMode::OverdriveHigh)
        } else if str_eq(&v, "overdrive_max") {
            Some(PerformanceMode::OverdriveMax)
        } else if str_eq(&v, "smart_adaptive") {
            Some(PerformanceMode::SmartAdaptive)
        } else if str_eq(&v, "smart") {
            Some(PerformanceMode::Smart)
        } else if str_eq(&v, "long_battery") {
            Some(PerformanceMode::LongBattery)
        } else if str_eq(&v, "smart_acceleration") {
            Some(PerformanceMode::SmartAcceleration)
        } else {
            None
        }
    }
}

/// A mode's hardware value gives the mode back.
pub proof fn law_hw_value_roundtrip(m: PerformanceMode)
    ensures
        mode_of_hw(hw_value(m)) == Some(m),
{
}

/// A mode's name gives the mode back.
pub proof fn law_name_roundtrip(m: PerformanceMode)
    ensures
        mode_named(mode_name(m)) == Some(m),
{
    reveal_strlit("silence");
    reveal_strlit("balance");
    reveal_strlit("turbo");
    reveal_strlit("decepticon");
    reveal_strlit("overdrive");
    reveal_strlit("overdrive_high");
    reveal_strlit("overdrive_max");
    reveal_strlit("smart_adaptive");
    reveal_strlit("smart");
    reveal_strlit("long_battery");
    reveal_strlit("smart_acceleration");
    assert("balance"@[0] != "silence"@[0]);
    assert("smart"@[0] != "turbo"@[0]);
    assert("smart_adaptive"@[0] != "overdrive_high"@[0]);
    assert("silence"@.len() == 7 && "balance"@.len() == 7 && "turbo"@.len() == 5
        && "decepticon"@.len() == 10 && "overdrive"@.len() == 9 && "overdrive_high"@.len() == 14
        && "overdrive_max"@.len() == 13 && "smart_adaptive"@.len() == 14 && "smart"@.len() == 5
        && "long_battery"@.len() == 12 && "smart_acceleration"@.len() == 18);
    assert("balance"@ != "silence"@);
    assert("smart"@ != "turbo"@);
    assert("smart_adaptive"@ != "overdrive_high"@);
    match m {
        PerformanceMode::Silence => {
            assert(mode_named(mode_name(PerformanceMode::Silence)) == Some(PerformanceMode::Silence));
        },
        PerformanceMode::Balance => {
            assert(mode_named(mode_name(PerformanceMode::Balance)) == Some(PerformanceMode::Balance));
        },
        PerformanceMode::Turbo => {
            assert(mode_named(mode_name(PerformanceMode::Turbo)) == Some(PerformanceMode::Turbo));
        },
        PerformanceMode::Decepticon => {
            assert(mode_named(mode_name(PerformanceMode::Decepticon)) == Some(PerformanceMode::Decepticon));
        },
        PerformanceMode::Overdrive => {
            assert(mode_named(mode_name(PerformanceMode::Overdrive)) == Some(PerformanceMode::Overdrive));
        },
        PerformanceMode::OverdriveHigh => {
            assert(mode_named(mode_name(PerformanceMode::OverdriveHigh)) == Some(PerformanceMode::OverdriveHigh));
        },
        PerformanceMode::OverdriveMax => {
            assert(mode_named(mode_name(PerformanceMode::OverdriveMax)) == Some(PerformanceMode::OverdriveMax));
        },
        PerformanceMode::SmartAdaptive => {
            assert(mode_named(mode_name(PerformanceMode::SmartAdaptive)) == Some(PerformanceMode::SmartAdaptive));
        },
        PerformanceMode::Smart => {
            assert(mode_named(mode_name(PerformanceMode::Smart)) == Some(PerformanceMode::Smart));
        },
        PerformanceMode::LongBattery => {
            assert(mode_named(mode_name(PerformanceMode::LongBattery)) == Some(PerformanceMode::LongBattery));
        },
        PerformanceMode::SmartAcceleration => {
            assert(mode_named(mode_name(PerformanceMode::SmartAcceleration)) == Some(PerformanceMode::SmartAcceleration));
        },
    }
}

// ── Windows power overlay ───────────────────────────────────────────────────

pub open spec fn overlay_guid(m: PerformanceMode) -> Seq<char> {
    match m {
        PerformanceMode::Silence | PerformanceMode::LongBattery => "961cc777-2547-4f9d-8174-7d86181b8a7a"@,
        PerformanceMode::Turbo | PerformanceMode::Decepticon | PerformanceMode::SmartAcceleration
        | PerformanceMode::Overdrive | PerformanceMode::OverdriveHigh
        | PerformanceMode::OverdriveMax => "ded574b5-45a0-4f42-8737-46345c09c238"@,
        _ => "3af9b8d9-7c97-431d-ad78-34a8bfea439f"@,
    }
}

/// The power overlay to activate with a mode: best power efficiency for
/// Silence and LongBattery, best performance for Turbo, Decepticon,
/// SmartAcceleration and the Overdrive modes, balanced otherwise.
pub fn set_windows_power_overlay(mode: PerformanceMode) -> (guid: &'static str)
    ensures
        guid@ == overlay_guid(mode),
{
    match mode {
        PerformanceMode::Silence | PerformanceMode::LongBattery => "961cc777-2547-4f9d-8174-7d86181b8a7a",
        PerformanceMode::Turbo | PerformanceMode::Decepticon | PerformanceMode::SmartAcceleration
        | PerformanceMode::Overdrive | PerformanceMode::OverdriveHigh
        | PerformanceMode::OverdriveMax => "ded574b5-45a0-4f42-8737-46345c09c238",
        _ => "3af9b8d9-7c97-431d-ad78-34a8bfea439f",
    }
}

/// The mode that an active overlay GUID suggests.
pub open spec fn mode_of_overlay(guid: Seq<char>) -> PerformanceMode {
    let g = lower_seq(guid);
    if find_seq(g, "961cc777"@) is Some {
        PerformanceMode::LongBattery
    } else if find_seq(g, "ded574b5"@) is Some {
        PerformanceMode::Turbo
    } else {
        PerformanceMode::Balance
    }
}

fn mode_from_overlay(guid: &str) -> (m: PerformanceMode)
    ensures
        m == mode_of_overlay(guid@),
{
    let g = ascii_lower(&chars_of(guid));
    if find_sub(&g, &chars_of("961cc777")).is_some() {
        PerformanceMode::LongBattery
    } else if find_sub(&g, &chars_of("ded574b5")).is_some() {
        PerformanceMode::Turbo
    } else {
        PerformanceMode::Balance
    }
}

proof fn lemma_no_upper(g: Seq<char>)
    requires
        forall|i: int| 0 <= i < g.len() ==> !('A' <= #[trigger] g[i] && g[i] <= 'Z'),
    ensures
        lower_seq(g) == g,
{
    assert(lower_seq(g) =~= g);
}

proof fn lemma_absent(g: Seq<char>, pat: Seq<char>, i: int)
    requires
        0 <= i,
        pat.len() >= 2,
        forall|j: int| i <= j && j + pat.len() <= g.len() ==> (#[trigger] g[j] != pat[0] || g[j + 1] != pat[1]),
    ensures
        find_from(g, pat, i) is None,
    decreases g.len() + 1 - i,
{
    if i + pat.len() <= g.len() {
        if occurs_at(g, pat, i) {
            assert(g.subrange(i, i + pat.len())[0] == g[i]);
            assert(g.subrange(i, i + pat.len())[1] == g[i + 1]);
        }
        lemma_absent(g, pat, i + 1);
    }
}

proof fn lemma_present_at_start(g: Seq<char>, pat: Seq<char>)
    requires
        pat.len() <= g.len(),
        g.subrange(0, pat.len() as int) == pat,
    ensures
        find_seq(g, pat) == Some(0int),
{
}

/// Reading an overlay back gives a mode with that same overlay: the
/// balanced overlay reads as Balance, best power efficiency as LongBattery
/// and best performance as Turbo.
pub proof fn law_overlay_read_back(m: PerformanceMode)
    ensures
        overlay_guid(mode_of_overlay(overlay_guid(m))) == overlay_guid(m),
        mode_of_overlay("3af9b8d9-7c97-431d-ad78-34a8bfea439f"@) == PerformanceMode::Balance,
        mode_of_overlay("961cc777-2547-4f9d-8174-7d86181b8a7a"@) == PerformanceMode::LongBattery,
        mode_of_overlay("ded574b5-45a0-4f42-8737-46345c09c238"@) == PerformanceMode::Turbo,
{
    let bal = "3af9b8d9-7c97-431d-ad78-34a8bfea439f"@;
    let eff = "961cc777-2547-4f9d-8174-7d86181b8a7a"@;
    let perf = "ded574b5-45a0-4f42-8737-46345c09c238"@;
    let p_eff = "961cc777"@;
    let p_perf = "ded574b5"@;
    reveal_strlit("3af9b8d9-7c97-431d-ad78-34a8bfea439f");
    reveal_strlit("961cc777-2547-4f9d-8174-7d86181b8a7a");
    reveal_strlit("ded574b5-45a0-4f42-8737-46345c09c238");
    reveal_strlit("961cc777");
    reveal_strlit("ded574b5");
    lemma_no_upper(bal);
    lemma_no_upper(eff);
    lemma_no_upper(perf);
    lemma_absent(bal, p_eff, 0);
    lemma_absent(bal, p_perf, 0);
    lemma_absent(perf, p_eff, 0);
    assert(eff.subrange(0, 8) =~= p_eff);
    lemma_present_at_start(eff, p_eff);
    assert(perf.subrange(0, 8) =~= p_perf);
    lemma_present_at_start(perf, p_perf);
}

/// Any overlay GUID naming neither best power efficiency (961cc777) nor
/// best performance (ded574b5), in either case, reads as Balance; one
/// naming best power efficiency reads as LongBattery.
pub proof fn law_unknown_overlay_is_balance(g: Seq<char>)
    ensures
        find_seq(lower_seq(g), "961cc777"@) is None && find_seq(lower_seq(g), "ded574b5"@) is None
            ==> mode_of_overlay(g) == PerformanceMode::Balance,
        find_seq(lower_seq(g), "961cc777"@) is Some ==> mode_of_overlay(g)
            == PerformanceMode::LongBattery,
        mode_of_overlay(g) == PerformanceMode::Balance || mode_of_overlay(g)
            == PerformanceMode::LongBattery || mode_of_overlay(g) == PerformanceMode::Turbo,
{
}

/// The current mode: the exact value stored by MiControl when it names a
/// mode, else what the active power overlay suggests, else Balance.
pub fn get_performance_mode(stored: Option<u32>, overlay: Option<&str>) -> (m: PerformanceMode)
    ensures
        m == (match (match stored {
            Some(v) => mode_of_hw(v),
            None => None,
        }) {
            Some(x) => x,
            None => match overlay {
                Some(g) => mode_of_overlay(g@),
                None => PerformanceMode::Balance,
            },
        }),
{
    if let Some(v) = stored {
        if let Some(m) = PerformanceMode::from_hw_value(v) {
            return m;
        }
    }
    match overlay {
        Some(g) => mode_from_overlay(g),
        None => PerformanceMode::Balance,
    }
}

/// A mode stored by MiControl is the mode read back, whatever the overlay says.
pub proof fn law_stored_mode_read_back(m: PerformanceMode, overlay: Option<Seq<char>>)
    ensures
        (match mode_of_hw(hw_value(m)) {
            Some(x) => x,
            None => match overlay {
                Some(g) => mode_of_overlay(g),
                None => PerformanceMode::Balance,
            },
        }) == m,
{
}

// ── Setting a mode ──────────────────────────────────────────────────────────

/// The first channel that accepted the mode after the registry write.
#[derive(Clone, Copy, Debug, PartialEq, Eq, Structural)]
pub enum PerformanceChannel {
    HqWmi,
    Vhf,
    RegistryOnly,
}

#[derive(Clone, Debug, PartialEq, Eq)]
pub struct PerformanceResult {
    pub success: bool,
    /// The channels used, e.g. `hq_wmi+registry+overlay`.
    pub method: String,
    pub mode: PerformanceMode,
}

pub open spec fn method_name(c: PerformanceChannel) -> Seq<char> {
    match c {
        PerformanceChannel::HqWmi => "hq_wmi+registry+overlay"@,
        PerformanceChannel::Vhf => "vhf+registry+overlay"@,
        PerformanceChannel::RegistryOnly => "registry+overlay"@,
    }
}

/// The result of setting `mode` once the registry and overlay were written
/// and `channel` was the first of HQ WMI, VHF that worked (or neither).
pub fn set_performance_mode(mode: PerformanceMode, channel: PerformanceChannel) -> (r: PerformanceResult)
    ensures
        r.success,
        r.mode == mode,
        r.method@ == method_name(channel),
{
    let method = match channel {
        PerformanceChannel::HqWmi => string_of(&chars_of("hq_wmi+registry+overlay")),
        PerformanceChannel::Vhf => string_of(&chars_of("vhf+registry+overlay")),
        PerformanceChannel::RegistryOnly => string_of(&chars_of("registry+overlay")),
    };
    PerformanceResult { success: true, method, mode }
}

// ── Diagnostics ─────────────────────────────────────────────────────────────

/// A backslash doubled, as WMI object paths need in key values.
pub open spec fn escape_backslashes(s: Seq<char>) -> Seq<char>
    decreases s.len(),
{
    if s.len() == 0 {
        seq![]
    } else {
        escape_backslashes(s.drop_last()) + if s.last() == '\\' {
            seq!['\\', '\\']
        } else {
            seq![s.last()]
        }
    }
}

/// The WMI object path of the HQ WMI interface instance.
pub fn wmi_instance_path(instance_name: &str) -> (r: String)
    ensures
        r@ == "HQWmiCommonInterface.InstanceName=\""@ + escape_backslashes(instance_name@) + "\""@,
{
    let cs = chars_of(instance_name);
    let mut v = chars_of("HQWmiCommonInterface.InstanceName=\"");
    let ghost start = v@;
    let mut i: usize = 0;
    while i < cs.len()
        invariant
            i <= cs.len(),
            cs@ == instance_name@,
            v@ == start + escape_backslashes(cs@.take(i as int)),
        decreases cs.len() - i,
    {
        assert(cs@.take(i as int + 1).drop_last() == cs@.take(i as int));
        if cs[i] == '\\' {
            v.push('\\');
            v.push('\\');
        } else {
            v.push(cs[i]);
        }
        i += 1;
    }
    assert(cs@.take(cs.len() as int) == cs@);
    append_str(&mut v, "\"");
    string_of(&v)
}

/// The name a mode is shown by in diagnostics (its variant name).
pub open spec fn debug_name_of(m: PerformanceMode) -> Seq<char> {
    match m {
        PerformanceMode::Silence => "Silence"@,
        PerformanceMode::Balance => "Balance"@,
        PerformanceMode::Turbo => "Turbo"@,
        PerformanceMode::Decepticon => "Decepticon"@,
        PerformanceMode::Overdrive => "Overdrive"@,
        PerformanceMode::OverdriveHigh => "OverdriveHigh"@,
        PerformanceMode::OverdriveMax => "OverdriveMax"@,
        PerformanceMode::SmartAdaptive => "SmartAdaptive"@,
        PerformanceMode::Smart => "Smart"@,
        PerformanceMode::LongBattery => "LongBattery"@,
        PerformanceMode::SmartAcceleration => "SmartAcceleration"@,
    }
}

pub fn debug_name(m: PerformanceMode) -> (s: &'static str)
    ensures
        s@ == debug_name_of(m),
{
    match m {
        PerformanceMode::Silence => "Silence",
        PerformanceMode::Balance => "Balance",
        PerformanceMode::Turbo => "Turbo",
        PerformanceMode::Decepticon => "Decepticon",
        PerformanceMode::Overdrive => "Overdrive",
        PerformanceMode::OverdriveHigh => "OverdriveHigh",
        PerformanceMode::OverdriveMax => "OverdriveMax",
        PerformanceMode::SmartAdaptive => "SmartAdaptive",
        PerformanceMode::Smart => "Smart",
        PerformanceMode::LongBattery => "LongBattery",
        PerformanceMode::SmartAcceleration => "SmartAcceleration",
    }
}

/// Diagnostics of the performance-mode channels.
#[derive(Debug, Clone, PartialEq, Eq)]
pub struct PerfDebugInfo {
    /// The HQ WMI instance, when the class was found.
    pub hq_wmi_instance: Option<String>,
    /// Whether a live test call answered success.
    pub hq_wmi_works: bool,
    /// What the test call returned (empty when none was made).
    pub hq_wmi_test_ret: String,
    pub vhf_device_path: Option<String>,
    pub registry_mode: String,
    pub overlay_mode: String,
}

fn mode_text(m: Option<PerformanceMode>, none: &str) -> (r: String)
    ensures
        r@ == match m {
            Some(x) => debug_name_of(x),
            None => none@,
        },
{
    match m {
        Some(x) => string_of(&chars_of(debug_name(x))),
        None => string_of(&chars_of(none)),
    }
}

/// The diagnostics from what was probed: the stored and overlay modes, the
/// VHF path, the HQ WMI instance and the outcome of a live test call on it
/// (`None` when none was made). The call works when its answer holds
/// "success" in any case.
pub fn get_perf_debug(
    on_windows: bool,
    registry_mode: Option<PerformanceMode>,
    overlay_mode: Option<PerformanceMode>,
    vhf_device_path: Option<String>,
    hq_wmi_instance: Option<String>,
    test_call: Option<Result<String, String>>,
) -> (d: PerfDebugInfo)
    ensures
        !on_windows ==> d.hq_wmi_instance is None && !d.hq_wmi_works && d.hq_wmi_test_ret@
            == "not Windows"@ && d.vhf_device_path is None && d.registry_mode@ == "n/a"@
            && d.overlay_mode@ == "n/a"@,
        on_windows ==> {
            &&& d.hq_wmi_instance == hq_wmi_instance
            &&& d.vhf_device_path == vhf_device_path
            &&& d.registry_mode@ == match registry_mode {
                Some(x) => debug_name_of(x),
                None => "unknown"@,
            }
            &&& d.overlay_mode@ == match overlay_mode {
                Some(x) => debug_name_of(x),
                None => "unknown"@,
            }
            &&& match test_call {
                None => !d.hq_wmi_works && d.hq_wmi_test_ret@.len() == 0,
                Some(Ok(ret)) => d.hq_wmi_test_ret == ret && d.hq_wmi_works == (find_seq(
                    unicode_lower(ret@),
                    "success"@,
                ) is Some),
                Some(Err(e)) => !d.hq_wmi_works && d.hq_wmi_test_ret@ == "ERROR: "@ + e@,
            }
        },
{
    if !on_windows {
        return PerfDebugInfo {
            hq_wmi_instance: None,
            hq_wmi_works: false,
            hq_wmi_test_ret: string_of(&chars_of("not Windows")),
            vhf_device_path: None,
            registry_mode: string_of(&chars_of("n/a")),
            overlay_mode: string_of(&chars_of("n/a")),
        };
    }
    let (works, ret) = match test_call {
        None => (false, String::new()),
        Some(Ok(ret)) => {
            let lower = to_lowercase(ret.as_str());
            (contains_str(lower.as_str(), "success"), ret)
        },
        Some(Err(e)) => {
            let mut v = chars_of("ERROR: ");
            append_str(&mut v, e.as_str());
            (false, string_of(&v))
        },
    };
    PerfDebugInfo {
        hq_wmi_instance,
        hq_wmi_works: works,
        hq_wmi_test_ret: ret,
        vhf_device_path,
        registry_mode: mode_text(registry_mode, "unknown"),
        overlay_mode: mode_text(overlay_mode, "unknown"),
    }
}

/// The feature report sent to the VHF device: the mode's hardware value,
/// little-endian.
pub fn vhf_payload(mode: PerformanceMode) -> (b: [u8; 4])
    ensures
        b@ == seq![
            (hw_value(mode) % 256) as u8,
            ((hw_value(mode) / 256) % 256) as u8,
            ((hw_value(mode) / 65536) % 256) as u8,
            (hw_value(mode) / 16777216) as u8,
        ],
{
    let v = mode.to_hw_value();
    let b: [u8; 4] = [(v % 256) as u8, ((v / 256) % 256) as u8, ((v / 65536) % 256) as u8, (v / 16777216) as u8];
    assert(b@ =~= seq![
        (hw_value(mode) % 256) as u8,
        ((hw_value(mode) / 256) % 256) as u8,
        ((hw_value(mode) / 65536) % 256) as u8,
        (hw_value(mode) / 16777216) as u8,
    ]);
    b
}

} // verus!
