//! OS Turbo: the power plan it switches to, the background processes it
//! throttles, and the status it reports.
use vstd::prelude::*;
use crate::text::{owned, str_is};

verus! {

/// Where OS Turbo records whether it is on.
pub const OS_TURBO_REG_KEY: &'static str = "SOFTWARE\\MiControl\\OSTurbo";

/// OS Turbo status.
#[derive(Debug, Clone, PartialEq, Eq)]
pub struct OsTurboStatus {
    pub enabled: bool,
    /// Number of background processes throttled.
    pub throttled_processes: u32,
    /// Name of the active power plan.
    pub power_plan: String,
}

/// The classic Windows power schemes.
#[derive(Debug, Clone, Copy, PartialEq, Eq, Structural)]
pub enum PowerPlan {
    HighPerformance,
    Balanced,
    PowerSaver,
}

pub open spec fn plan_guid_of(p: PowerPlan) -> u128 {
    match p {
        PowerPlan::HighPerformance => 0x8c5e7fda_e8bf_4a96_9a85_a6e23a8c635c,
        PowerPlan::Balanced => 0x381b4222_f694_41f0_9685_ff5bb260df2e,
        PowerPlan::PowerSaver => 0xa1841308_3541_4fab_bc81_f71556f20b4a,
    }
}

pub fn plan_guid(p: PowerPlan) -> (g: u128)
    ensures
        g == plan_guid_of(p),
{
    match p {
        PowerPlan::HighPerformance => 0x8c5e7fda_e8bf_4a96_9a85_a6e23a8c635c,
        PowerPlan::Balanced => 0x381b4222_f694_41f0_9685_ff5bb260df2e,
        PowerPlan::PowerSaver => 0xa1841308_3541_4fab_bc81_f71556f20b4a,
    }
}

pub open spec fn plan_name_of(p: PowerPlan) -> Seq<char> {
    match p {
        PowerPlan::HighPerformance => "Best Performance"@,
        PowerPlan::Balanced => "Balanced"@,
        PowerPlan::PowerSaver => "Best Power Efficiency"@,
    }
}

/// The plan a scheme GUID names, if it is a classic one.
pub fn plan_of_guid(g: u128) -> (p: Option<PowerPlan>)
    ensures
        match p {
            Some(q) => plan_guid_of(q) == g,
            None => forall|q: PowerPlan| plan_guid_of(q) != g,
        },
{
    if g == 0x8c5e7fda_e8bf_4a96_9a85_a6e23a8c635c {
        Some(PowerPlan::HighPerformance)
    } else if g == 0x381b4222_f694_41f0_9685_ff5bb260df2e {
        Some(PowerPlan::Balanced)
    } else if g == 0xa1841308_3541_4fab_bc81_f71556f20b4a {
        Some(PowerPlan::PowerSaver)
    } else {
        None
    }
}

/// The name shown for a plan.
pub fn plan_name(p: PowerPlan) -> (s: &'static str)
    ensures
        s@ == plan_name_of(p),
{
    match p {
        PowerPlan::HighPerformance => "Best Performance",
        PowerPlan::Balanced => "Balanced",
        PowerPlan::PowerSaver => "Best Power Efficiency",
    }
}

/// `powercfg` arguments that activate a plan (the fallback when the power
/// API refuses).
pub fn powercfg_args(p: PowerPlan) -> (r: (&'static str, &'static str))
    ensures
        r.0@ == "/setactive"@,
        r.1@ == match p {
            PowerPlan::HighPerformance => "8c5e7fda-e8bf-4a96-9a85-a6e23a8c635c"@,
            PowerPlan::Balanced => "381b4222-f694-41f0-9685-ff5bb260df2e"@,
            PowerPlan::PowerSaver => "a1841308-3541-4fab-bc81-f71556f20b4a"@,
        },
{
    match p {
        PowerPlan::HighPerformance => ("/setactive", "8c5e7fda-e8bf-4a96-9a85-a6e23a8c635c"),
        PowerPlan::Balanced => ("/setactive", "381b4222-f694-41f0-9685-ff5bb260df2e"),
        PowerPlan::PowerSaver => ("/setactive", "a1841308-3541-4fab-bc81-f71556f20b4a"),
    }
}

/// The plan OS Turbo switches to: best performance when it is turned on,
/// balanced when it is turned off.
pub fn turbo_plan(enabled: bool) -> (p: PowerPlan)
    ensures
        p == if enabled {
            PowerPlan::HighPerformance
        } else {
            PowerPlan::Balanced
        },
{
    if enabled {
        PowerPlan::HighPerformance
    } else {
        PowerPlan::Balanced
    }
}

/// Background processes that may be put on EcoQoS.
pub open spec fn throttle_target(name: Seq<char>) -> bool {
    name == "SearchIndexer.exe"@ || name == "MsMpEng.exe"@ || name == "TiWorker.exe"@ || name
        == "TrustedInstaller.exe"@ || name == "backgroundTaskHost.exe"@
}

pub fn is_throttle_target(name: &str) -> (r: bool)
    ensures
        r == throttle_target(name@),
{
    str_is(name, "SearchIndexer.exe") || str_is(name, "MsMpEng.exe") || str_is(name, "TiWorker.exe")
        || str_is(name, "TrustedInstaller.exe") || str_is(name, "backgroundTaskHost.exe")
}

/// The PIDs to throttle among the running processes (pid, name), in order.
pub open spec fn targets_of(ps: Seq<(u32, String)>) -> Seq<u32>
    decreases ps.len(),
{
    if ps.len() == 0 {
        seq![]
    } else if throttle_target(ps.last().1@) {
        targets_of(ps.drop_last()).push(ps.last().0)
    } else {
        targets_of(ps.drop_last())
    }
}

pub fn throttle_candidates(processes: &Vec<(u32, String)>) -> (r: Vec<u32>)
    ensures
        r@ == targets_of(processes@),
{
    let mut out: Vec<u32> = Vec::new();
    let mut i: usize = 0;
    while i < processes.len()
        invariant
            i <= processes.len(),
            out@ == targets_of(processes@.take(i as int)),
        decreases processes.len() - i,
    {
        assert(processes@.take(i as int + 1).drop_last() == processes@.take(i as int));
        if is_throttle_target(processes[i].1.as_str()) {
            out.push(processes[i].0);
        }
        i += 1;
    }
    assert(processes@.take(processes.len() as int) == processes@);
    out
}

/// The value recorded under `Enabled`.
pub fn persisted_value(enabled: bool) -> (v: u32)
    ensures
        v == if enabled {
            1u32
        } else {
            0u32
        },
{
    if enabled {
        1
    } else {
        0
    }
}

/// The status after OS Turbo was turned on or off: on Windows the plan
/// switched to is named (turning off throttles nothing); elsewhere no plan
/// is set.
pub fn set_os_turbo(enabled: bool, on_windows: bool, throttled: u32) -> (s: OsTurboStatus)
    ensures
        s.enabled == enabled,
        s.throttled_processes == if enabled {
            throttled
        } else {
            0
        },
        s.power_plan@ == if on_windows {
            plan_name_of(
                if enabled {
                    PowerPlan::HighPerformance
                } else {
                    PowerPlan::Balanced
                },
            )
        } else {
            Seq::<char>::empty()
        },
{
    let plan = if on_windows {
        owned(plan_name(turbo_plan(enabled)))
    } else {
        String::new()
    };
    OsTurboStatus { enabled, throttled_processes: if enabled { throttled } else { 0 }, power_plan: plan }
}

/// The status read back: on when the recorded value is non-zero, with the
/// active plan's name when it could be read; nothing off Windows.
pub fn get_os_turbo(on_windows: bool, recorded: Option<u32>, active_plan: Option<String>) -> (s: OsTurboStatus)
    ensures
        s.throttled_processes == 0,
        !on_windows ==> !s.enabled && s.power_plan@.len() == 0,
        on_windows ==> s.enabled == (recorded matches Some(v) && v != 0) && s.power_plan@ == match active_plan {
            Some(p) => p@,
            None => Seq::<char>::empty(),
        },
{
    if !on_windows {
        return OsTurboStatus { enabled: false, throttled_processes: 0, power_plan: String::new() };
    }
    let enabled = match recorded {
        Some(v) => v != 0,
        None => false,
    };
    let power_plan = match active_plan {
        Some(p) => p,
        None => String::new(),
    };
    OsTurboStatus { enabled, throttled_processes: 0, power_plan }
}

} // verus!
