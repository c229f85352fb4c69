//! Scenario rules: the performance mode applied on power events, and the
//! lid-close action.
use vstd::prelude::*;
use crate::iot_events::IotEventsConfig;
use crate::performance::PerformanceMode;
use crate::text::{ascii_lower, chars_eq, chars_of, lower_seq, trim_ws, trim_ws_exec};

verus! {

/// What to do when the lid closes.
#[derive(Debug, Clone, Copy, PartialEq, Eq, Structural)]
pub enum LidAction {
    NoAction,
    Sleep,
}

pub open spec fn lid_action_of(s: Seq<char>) -> LidAction {
    let t = trim_ws(lower_seq(s));
    if t == "sleep"@ || t == "suspend"@ || t == "standby"@ {
        LidAction::Sleep
    } else {
        LidAction::NoAction
    }
}

fn is(v: &Vec<char>, s: &str) -> (r: bool)
    ensures
        r == (v@ == s@),
{
    chars_eq(v, &chars_of(s))
}

impl LidAction {
    /// `sleep`, `suspend` or `standby` (ASCII case and surrounding
    /// whitespace ignored) mean Sleep; anything else nothing.
    pub fn parse(s: &str) -> (a: LidAction)
        ensures
            a == lid_action_of(s@),
    {
        let t = trim_ws_exec(&ascii_lower(&chars_of(s)));
        if is(&t, "sleep") || is(&t, "suspend") || is(&t, "standby") {
            LidAction::Sleep
        } else {
            LidAction::NoAction
        }
    }
}

/// The rule set.
#[derive(Debug, Clone, Copy, PartialEq, Eq, Structural)]
pub struct ScenarioRulesConfig {
    pub enabled: bool,
    pub on_ac_mode: Option<PerformanceMode>,
    pub on_battery_mode: Option<PerformanceMode>,
    pub lid_action: LidAction,
}

impl Default for ScenarioRulesConfig {
    fn default() -> (c: Self)
        ensures
            c.enabled,
            c.on_ac_mode is None,
            c.on_battery_mode is None,
            c.lid_action == LidAction::NoAction,
    {
        ScenarioRulesConfig {
            enabled: true,
            on_ac_mode: None,
            on_battery_mode: None,
            lid_action: LidAction::NoAction,
        }
    }
}

impl ScenarioRulesConfig {
    /// The rules: switch and modes from the IoT-events configuration, the
    /// lid action from its own registry value (`None`: absent).
    pub fn load(base: &IotEventsConfig, lid_value: &Option<String>) -> (c: Self)
        ensures
            c.enabled == base.enabled,
            c.on_ac_mode == base.on_ac_mode,
            c.on_battery_mode == base.on_battery_mode,
            c.lid_action == (match *lid_value {
                Some(v) => lid_action_of(v@),
                None => LidAction::NoAction,
            }),
    {
        let lid_action = match lid_value {
            Some(v) => LidAction::parse(v.as_str()),
            None => LidAction::NoAction,
        };
        ScenarioRulesConfig {
            enabled: base.enabled,
            on_ac_mode: base.on_ac_mode,
            on_battery_mode: base.on_battery_mode,
            lid_action,
        }
    }
}

pub open spec fn desired(ev: Seq<char>, cfg: ScenarioRulesConfig) -> Option<PerformanceMode> {
    if ev == "ac_on"@ {
        cfg.on_ac_mode
    } else if ev == "ac_off"@ || ev == "battery_low"@ {
        cfg.on_battery_mode
    } else {
        None
    }
}

/// The mode an event asks for: AC plug-in the AC mode, unplug or low
/// battery the battery mode.
pub fn desired_mode(ev: &str, cfg: &ScenarioRulesConfig) -> (m: Option<PerformanceMode>)
    ensures
        m == desired(ev@, *cfg),
{
    let e = chars_of(ev);
    if is(&e, "ac_on") {
        cfg.on_ac_mode
    } else if is(&e, "ac_off") || is(&e, "battery_low") {
        cfg.on_battery_mode
    } else {
        None
    }
}

/// The mode to apply for an event: none while the rules are disabled.
pub fn apply_event(ev: &str, cfg: &ScenarioRulesConfig) -> (m: Option<PerformanceMode>)
    ensures
        m == (if cfg.enabled {
            desired(ev@, *cfg)
        } else {
            None
        }),
{
    if !cfg.enabled {
        return None;
    }
    desired_mode(ev, cfg)
}

/// Whether closing the lid puts the system to sleep.
pub fn apply_lid_action(cfg: &ScenarioRulesConfig) -> (sleep: bool)
    ensures
        sleep == (cfg.lid_action == LidAction::Sleep),
{
    match cfg.lid_action {
        LidAction::NoAction => false,
        LidAction::Sleep => true,
    }
}

/// Disabled rules never apply a mode, whatever the event.
pub proof fn law_disabled_rules_never_apply(ev: Seq<char>, cfg: ScenarioRulesConfig)
    requires
        !cfg.enabled,
    ensures
        (if cfg.enabled {
            desired(ev, cfg)
        } else {
            None::<PerformanceMode>
        }) is None,
{
}

} // verus!
