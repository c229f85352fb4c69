//! Hotkeys: the bindings of the special Xiaomi keys, key-detect mode, the
//! decisions taken on raw-input, WM_HOTKEY and WMI key events, and the
//! security checks in front of script actions.
use vstd::prelude::*;
use std::collections::HashMap;
use vstd::utf8::encode_utf8;
use crate::iotservice::{hex_lower, hex_lower_exec, sha256, sha256_digest};
use crate::performance::{mode_named, PerformanceMode};
use crate::text::{
    append_bytes, append_str, ascii_lower, chars_eq, chars_of, lower_seq, owned,
    slice_chars, string_of,
};

verus! {

broadcast use vstd::std_specs::hash::group_hash_axioms;

/// VK_LAUNCH_APP1, the Xiaomi AI key.
pub const VK_AI_KEY: u32 = 0xB6;

/// VK_LAUNCH_APP2, the Xiaomi PC Manager key.
pub const VK_XIAOMI_KEY: u32 = 0xB7;

/// The Copilot key on Windows 11 24H2 and later.
pub const VK_COPILOT: u32 = 0xC3;

/// Right Ctrl, the default target of the Copilot key.
pub const VK_RCONTROL: u32 = 0xA3;

/// What happens when an intercepted key fires.
#[derive(Debug, Clone, PartialEq, Eq)]
pub enum HotkeyAction {
    /// Suppress the key and do nothing.
    NoAction,
    /// Show and focus the MiControl tray popup.
    FocusMicontrol,
    /// Show and focus the main window.
    OpenMainWindow,
    /// Open a URL in the default browser.
    OpenUrl { url: String },
    /// Launch an executable.
    LaunchApp { path: String, args: Vec<String> },
    /// Remap this key to another virtual key (hold behaviour).
    RemapToKey { vk: u32, extended: bool },
    /// Switch to the named performance mode (snake_case name).
    SetPerformanceMode { mode: String },
    /// Toggle AI adaptive brightness.
    ToggleAiBrightness,
    /// Inject a media key: volume_up, volume_down, mute, play_pause, next, prev.
    MediaControl { action: String },
    /// Run a script without a window; `interpreter` is "", "powershell" or "cmd".
    Script { interpreter: String, path: String, args: Vec<String> },
}

/// Per-key binding.
#[derive(Debug, Clone, PartialEq, Eq)]
pub struct KeyBinding {
    /// Whether to intercept the key at all.
    pub enabled: bool,
    pub action: HotkeyAction,
    /// Label shown in the settings.
    pub label: Option<String>,
}

/// The bindings of the three special keys.
#[derive(Debug, Clone, PartialEq, Eq)]
pub struct HotkeyMap {
    pub ai_key: KeyBinding,
    pub xiaomi_key: KeyBinding,
    pub copilot_key: KeyBinding,
}

pub open spec fn strings_view(v: Seq<String>) -> Seq<Seq<char>> {
    v.map_values(|s: String| s@)
}

/// Two actions are the same action (strings compared by content).
pub open spec fn same_action(a: HotkeyAction, b: HotkeyAction) -> bool {
    match (a, b) {
        (HotkeyAction::NoAction, HotkeyAction::NoAction) => true,
        (HotkeyAction::FocusMicontrol, HotkeyAction::FocusMicontrol) => true,
        (HotkeyAction::OpenMainWindow, HotkeyAction::OpenMainWindow) => true,
        (HotkeyAction::OpenUrl { url: u1 }, HotkeyAction::OpenUrl { url: u2 }) => u1@ == u2@,
        (
            HotkeyAction::LaunchApp { path: p1, args: a1 },
            HotkeyAction::LaunchApp { path: p2, args: a2 },
        ) => p1@ == p2@ && strings_view(a1@) == strings_view(a2@),
        (
            HotkeyAction::RemapToKey { vk: v1, extended: e1 },
            HotkeyAction::RemapToKey { vk: v2, extended: e2 },
        ) => v1 == v2 && e1 == e2,
        (
            HotkeyAction::SetPerformanceMode { mode: m1 },
            HotkeyAction::SetPerformanceMode { mode: m2 },
        ) => m1@ == m2@,
        (HotkeyAction::ToggleAiBrightness, HotkeyAction::ToggleAiBrightness) => true,
        (
            HotkeyAction::MediaControl { action: m1 },
            HotkeyAction::MediaControl { action: m2 },
        ) => m1@ == m2@,
        (
            HotkeyAction::Script { interpreter: i1, path: p1, args: a1 },
            HotkeyAction::Script { interpreter: i2, path: p2, args: a2 },
        ) => i1@ == i2@ && p1@ == p2@ && strings_view(a1@) == strings_view(a2@),
        _ => false,
    }
}

pub open spec fn same_label(a: Option<String>, b: Option<String>) -> bool {
    match (a, b) {
        (Some(x), Some(y)) => x@ == y@,
        (None, None) => true,
        _ => false,
    }
}

pub open spec fn same_binding(a: KeyBinding, b: KeyBinding) -> bool {
    a.enabled == b.enabled && same_action(a.action, b.action) && same_label(a.label, b.label)
}

pub open spec fn same_map(a: HotkeyMap, b: HotkeyMap) -> bool {
    same_binding(a.ai_key, b.ai_key) && same_binding(a.xiaomi_key, b.xiaomi_key) && same_binding(
        a.copilot_key,
        b.copilot_key,
    )
}

fn copy_strings(v: &Vec<String>) -> (r: Vec<String>)
    ensures
        strings_view(r@) == strings_view(v@),
{
    let mut r: Vec<String> = Vec::new();
    let mut i: usize = 0;
    while i < v.len()
        invariant
            i <= v.len(),
            strings_view(r@) == strings_view(v@.take(i as int)),
        decreases v.len() - i,
    {
        let c = v[i].clone();
        let ghost before = r@;
        r.push(c);
        assert(v@.take(i as int + 1) == v@.take(i as int).push(v@[i as int]));
        assert(strings_view(r@) == strings_view(before).push(c@));
        assert(strings_view(v@.take(i as int + 1)) == strings_view(v@.take(i as int)).push(
            v@[i as int]@,
        ));
        i += 1;
    }
    assert(v@.take(v.len() as int) == v@);
    r
}

impl HotkeyAction {
    /// A copy of the action.
    pub fn duplicate(&self) -> (r: Self)
        ensures
            same_action(r, *self),
    {
        match self {
            HotkeyAction::NoAction => HotkeyAction::NoAction,
            HotkeyAction::FocusMicontrol => HotkeyAction::FocusMicontrol,
            HotkeyAction::OpenMainWindow => HotkeyAction::OpenMainWindow,
            HotkeyAction::OpenUrl { url } => HotkeyAction::OpenUrl { url: url.clone() },
            HotkeyAction::LaunchApp { path, args } => HotkeyAction::LaunchApp {
                path: path.clone(),
                args: copy_strings(args),
            },
            HotkeyAction::RemapToKey { vk, extended } => HotkeyAction::RemapToKey {
                vk: *vk,
                extended: *extended,
            },
            HotkeyAction::SetPerformanceMode { mode } => HotkeyAction::SetPerformanceMode {
                mode: mode.clone(),
            },
            HotkeyAction::ToggleAiBrightness => HotkeyAction::ToggleAiBrightness,
            HotkeyAction::MediaControl { action } => HotkeyAction::MediaControl {
                action: action.clone(),
            },
            HotkeyAction::Script { interpreter, path, args } => HotkeyAction::Script {
                interpreter: interpreter.clone(),
                path: path.clone(),
                args: copy_strings(args),
            },
        }
    }
}

fn copy_label(l: &Option<String>) -> (r: Option<String>)
    ensures
        same_label(r, *l),
{
    match l {
        Some(s) => Some(s.clone()),
        None => None,
    }
}

impl KeyBinding {
    pub fn duplicate(&self) -> (r: Self)
        ensures
            same_binding(r, *self),
    {
        KeyBinding {
            enabled: self.enabled,
            action: self.action.duplicate(),
            label: copy_label(&self.label),
        }
    }
}

impl HotkeyMap {
    pub fn duplicate(&self) -> (r: Self)
        ensures
            same_map(r, *self),
    {
        HotkeyMap {
            ai_key: self.ai_key.duplicate(),
            xiaomi_key: self.xiaomi_key.duplicate(),
            copilot_key: self.copilot_key.duplicate(),
        }
    }
}

impl Default for KeyBinding {
    fn default() -> (b: Self)
        ensures
            !b.enabled,
            b.action is NoAction,
            b.label is None,
    {
        KeyBinding { enabled: false, action: HotkeyAction::NoAction, label: None }
    }
}

/// The bindings shipped by default: the AI and Xiaomi keys focus MiControl,
/// the Copilot key becomes Right Ctrl; all enabled.
pub open spec fn is_default_map(m: HotkeyMap) -> bool {
    &&& m.ai_key.enabled && m.ai_key.action is FocusMicontrol
    &&& m.ai_key.label matches Some(l) && l@ == "Xiaomi AI Key (Fn+F7)"@
    &&& m.xiaomi_key.enabled && m.xiaomi_key.action is FocusMicontrol
    &&& m.xiaomi_key.label matches Some(l) && l@ == "Xiaomi Key (opens miControl)"@
    &&& m.copilot_key.enabled && m.copilot_key.action == (HotkeyAction::RemapToKey {
        vk: VK_RCONTROL,
        extended: true,
    })
    &&& m.copilot_key.label matches Some(l) && l@ == "Copilot Key → Right Ctrl"@
}

fn str_of(s: &str) -> (r: String)
    ensures
        r@ == s@,
{
    string_of(&chars_of(s))
}

impl Default for HotkeyMap {
    fn default() -> (m: Self)
        ensures
            is_default_map(m),
    {
        HotkeyMap {
            ai_key: KeyBinding {
                enabled: true,
                action: HotkeyAction::FocusMicontrol,
                label: Some(str_of("Xiaomi AI Key (Fn+F7)")),
            },
            xiaomi_key: KeyBinding {
                enabled: true,
                action: HotkeyAction::FocusMicontrol,
                label: Some(str_of("Xiaomi Key (opens miControl)")),
            },
            copilot_key: KeyBinding {
                enabled: true,
                action: HotkeyAction::RemapToKey { vk: VK_RCONTROL, extended: true },
                label: Some(str_of("Copilot Key → Right Ctrl")),
            },
        }
    }
}

// ── In-memory configuration ─────────────────────────────────────────────────

/// The configuration the hook reads; `None` until the hook was started.
pub struct HotkeyStore {
    pub config: Option<HotkeyMap>,
}

/// The stored configuration after an update with `config`: replaced when
/// there was one, still absent otherwise.
pub open spec fn config_after_update(before: Option<HotkeyMap>, config: HotkeyMap) -> Option<HotkeyMap> {
    match before {
        Some(_) => Some(config),
        None => None,
    }
}

/// What a read gives for a stored configuration: the same map, or the
/// defaults when none is stored.
pub open spec fn reads_as(m: HotkeyMap, stored: Option<HotkeyMap>) -> bool {
    match stored {
        Some(c) => same_map(m, c),
        None => is_default_map(m),
    }
}

/// Replaces the in-memory configuration, when there is one.
pub fn update_in_memory(store: &mut HotkeyStore, config: HotkeyMap)
    ensures
        final(store).config == config_after_update(old(store).config, config),
{
    if store.config.is_some() {
        store.config = Some(config);
    }
}

/// The in-memory configuration, or the defaults when there is none.
pub fn read_in_memory(store: &HotkeyStore) -> (m: HotkeyMap)
    ensures
        reads_as(m, store.config),
{
    match &store.config {
        Some(c) => c.duplicate(),
        None => HotkeyMap::default(),
    }
}

/// A configuration read back after an update is the configuration written,
/// once the hook holds a configuration.
pub proof fn law_read_after_update(before: Option<HotkeyMap>, config: HotkeyMap, read: HotkeyMap)
    requires
        before is Some,
        reads_as(read, config_after_update(before, config)),
    ensures
        same_map(read, config),
{
}

/// Whether a key hook is active: Raw Input registered or the low-level hook installed.
pub fn is_hook_active(raw_input_active: bool, hook_handle: usize) -> (r: bool)
    ensures
        r == (raw_input_active || hook_handle != 0),
{
    raw_input_active || hook_handle != 0
}

// ── Key-detect mode ─────────────────────────────────────────────────────────

/// Whether the user is in key-detect mode, and the key captured so far.
#[derive(Debug, Clone, Copy, PartialEq, Eq, Structural)]
pub enum RemapState {
    Idle,
    /// `captured_vk` is 0 until a key was captured.
    AwaitingKey { captured_vk: u32 },
}

/// Enters key-detect mode with nothing captured.
pub fn start_detect_mode(state: &mut RemapState)
    ensures
        *final(state) == (RemapState::AwaitingKey { captured_vk: 0 }),
{
    *state = RemapState::AwaitingKey { captured_vk: 0 };
}

/// Leaves key-detect mode, discarding what was captured.
pub fn cancel_detect_mode(state: &mut RemapState)
    ensures
        *final(state) == RemapState::Idle,
{
    *state = RemapState::Idle;
}

pub open spec fn detected(s: RemapState) -> u32 {
    match s {
        RemapState::AwaitingKey { captured_vk } => captured_vk,
        RemapState::Idle => 0,
    }
}

/// The captured key, 0 when none (or not in detect mode).
pub fn get_detected_vk(state: &RemapState) -> (vk: u32)
    ensures
        vk == detected(*state),
{
    match state {
        RemapState::AwaitingKey { captured_vk } => *captured_vk,
        RemapState::Idle => 0,
    }
}

/// The state after a key press is offered to detect mode.
pub open spec fn captured(s: RemapState, vk: u32) -> RemapState {
    match s {
        RemapState::AwaitingKey { captured_vk } => if captured_vk == 0 {
            RemapState::AwaitingKey { captured_vk: vk }
        } else {
            s
        },
        RemapState::Idle => RemapState::Idle,
    }
}

/// In detect mode, records `vk` if nothing was captured yet; `true` when
/// detect mode is active.
pub fn capture_key(state: &mut RemapState, vk: u32) -> (active: bool)
    ensures
        active == (*old(state) is AwaitingKey),
        *final(state) == captured(*old(state), vk),
{
    match *state {
        RemapState::AwaitingKey { captured_vk } => {
            if captured_vk == 0 {
                *state = RemapState::AwaitingKey { captured_vk: vk };
            }
            true
        },
        RemapState::Idle => false,
    }
}

/// The detect-mode timer's end: the last key captured, and back to idle
/// unless already cancelled.
pub fn finish_detect_mode(state: &mut RemapState) -> (vk: u32)
    ensures
        vk == detected(*old(state)),
        *final(state) == RemapState::Idle,
{
    let vk = get_detected_vk(state);
    *state = RemapState::Idle;
    vk
}

/// Begin, then capture: the captured key is detected and detect mode stays on.
pub proof fn law_begin_capture_detects(vk: u32)
    requires
        vk != 0,
    ensures
        detected(captured(RemapState::AwaitingKey { captured_vk: 0 }, vk)) == vk,
        captured(RemapState::AwaitingKey { captured_vk: 0 }, vk) is AwaitingKey,
{
}

/// After a cancel, a capture changes nothing and nothing is detected.
pub proof fn law_capture_after_cancel_is_noop(vk: u32)
    ensures
        captured(RemapState::Idle, vk) == RemapState::Idle,
        detected(captured(RemapState::Idle, vk)) == 0,
{
}

/// The first key captured in detect mode is kept; later keys do not replace it.
pub proof fn law_first_capture_wins(s: RemapState, vk1: u32, vk2: u32)
    requires
        vk1 != 0,
        s is AwaitingKey,
    ensures
        detected(captured(captured(s, vk1), vk2)) == detected(captured(s, vk1)),
        detected(captured(s, vk1)) != 0,
{
}

// ── Resolving keys ──────────────────────────────────────────────────────────

/// The binding of a virtual key, if it is one of the three special keys.
pub open spec fn binding_for(m: HotkeyMap, vk: u32) -> Option<KeyBinding> {
    if vk == VK_AI_KEY {
        Some(m.ai_key)
    } else if vk == VK_XIAOMI_KEY {
        Some(m.xiaomi_key)
    } else if vk == VK_COPILOT {
        Some(m.copilot_key)
    } else {
        None
    }
}

/// The action a binding triggers: only an enabled binding with an action.
pub open spec fn active_action(b: KeyBinding) -> Option<HotkeyAction> {
    if b.enabled && !(b.action is NoAction) {
        Some(b.action)
    } else {
        None
    }
}

pub open spec fn same_opt_action(r: Option<HotkeyAction>, e: Option<HotkeyAction>) -> bool {
    match (r, e) {
        (Some(x), Some(y)) => same_action(x, y),
        (None, None) => true,
        _ => false,
    }
}

fn binding_action(b: &KeyBinding) -> (r: Option<HotkeyAction>)
    ensures
        same_opt_action(r, active_action(*b)),
{
    let is_none = match &b.action {
        HotkeyAction::NoAction => true,
        _ => false,
    };
    if b.enabled && !is_none {
        Some(b.action.duplicate())
    } else {
        None
    }
}

/// The action bound to `vk`, when the configuration is loaded and the key is
/// one of the special keys with an enabled, non-empty binding.
pub fn resolve_action(config: &Option<HotkeyMap>, vk: u32) -> (r: Option<HotkeyAction>)
    ensures
        same_opt_action(
            r,
            match *config {
                Some(m) => match binding_for(m, vk) {
                    Some(b) => active_action(b),
                    None => None,
                },
                None => None,
            },
        ),
{
    match config {
        None => None,
        Some(m) => {
            if vk == VK_AI_KEY {
                binding_action(&m.ai_key)
            } else if vk == VK_XIAOMI_KEY {
                binding_action(&m.xiaomi_key)
            } else if vk == VK_COPILOT {
                binding_action(&m.copilot_key)
            } else {
                None
            }
        },
    }
}

// ── Migration ───────────────────────────────────────────────────────────────

/// A binding after migration: a launch of our own executable becomes
/// FocusMicontrol.
pub open spec fn migrated_binding(b: KeyBinding, launches_self: bool) -> KeyBinding {
    if b.action is LaunchApp && launches_self {
        KeyBinding { action: HotkeyAction::FocusMicontrol, ..b }
    } else {
        b
    }
}

fn migrate_binding(b: KeyBinding, launches_self: bool) -> (r: KeyBinding)
    ensures
        r == migrated_binding(b, launches_self),
{
    let is_launch = match &b.action {
        HotkeyAction::LaunchApp { .. } => true,
        _ => false,
    };
    if is_launch && launches_self {
        KeyBinding { action: HotkeyAction::FocusMicontrol, ..b }
    } else {
        b
    }
}

/// Upgrades a loaded configuration: each LaunchApp binding whose target is
/// our own executable (`launches_self`, one flag per key: AI, Xiaomi,
/// Copilot) becomes FocusMicontrol, and a Copilot key left at the old
/// default (FocusMicontrol labelled "Copilot Key") becomes Right Ctrl.
pub fn migrate_config(cfg: HotkeyMap, launches_self: (bool, bool, bool)) -> (r: HotkeyMap)
    ensures
        r.ai_key == migrated_binding(cfg.ai_key, launches_self.0),
        r.xiaomi_key == migrated_binding(cfg.xiaomi_key, launches_self.1),
        ({
            let c = migrated_binding(cfg.copilot_key, launches_self.2);
            if c.action is FocusMicontrol && (c.label matches Some(l) && l@ == "Copilot Key"@) {
                &&& r.copilot_key.enabled == c.enabled
                &&& r.copilot_key.action == (HotkeyAction::RemapToKey { vk: VK_RCONTROL, extended: true })
                &&& (r.copilot_key.label matches Some(n) && n@ == "Copilot Key → Right Ctrl"@)
            } else {
                r.copilot_key == c
            }
        }),
{
    let ai = migrate_binding(cfg.ai_key, launches_self.0);
    let xi = migrate_binding(cfg.xiaomi_key, launches_self.1);
    let co = migrate_binding(cfg.copilot_key, launches_self.2);
    let is_focus = match &co.action {
        HotkeyAction::FocusMicontrol => true,
        _ => false,
    };
    let old_label = match &co.label {
        Some(l) => {
            let want = str_of("Copilot Key");
            *l == want
        },
        None => false,
    };
    if is_focus && old_label {
        let co2 = KeyBinding {
            enabled: co.enabled,
            action: HotkeyAction::RemapToKey { vk: VK_RCONTROL, extended: true },
            label: Some(str_of("Copilot Key → Right Ctrl")),
        };
        HotkeyMap { ai_key: ai, xiaomi_key: xi, copilot_key: co2 }
    } else {
        HotkeyMap { ai_key: ai, xiaomi_key: xi, copilot_key: co }
    }
}


// ── WMI key debounce ────────────────────────────────────────────────────────

/// Repeats of one key within this many milliseconds are dropped.
pub const DEBOUNCE_MS: u64 = 400;

/// Entries older than this many milliseconds are purged.
pub const DEBOUNCE_PURGE_MS: u64 = 60_000;

/// Milliseconds from `t` to `now` on a monotonic clock (0 if `t` is later).
pub open spec fn since(now: u64, t: u64) -> int {
    if now >= t {
        now - t
    } else {
        0
    }
}

/// Last time each key fired.
pub struct DebounceTable {
    pub entries: HashMap<u32, u64>,
}

impl DebounceTable {
    pub fn new() -> (t: Self)
        ensures
            t.entries@ == Map::<u32, u64>::empty(),
    {
        DebounceTable { entries: HashMap::new() }
    }
}

/// Whether `key` fired within the last 400 ms before `now`.
pub open spec fn debounced_at(m: Map<u32, u64>, key: u32, now: u64) -> bool {
    m.contains_key(key) && since(now, m[key]) < DEBOUNCE_MS
}

/// The entries younger than a minute at `now`.
pub open spec fn purged(m: Map<u32, u64>, now: u64) -> Map<u32, u64> {
    Map::new(|k: u32| m.contains_key(k) && since(now, m[k]) < DEBOUNCE_PURGE_MS, |k: u32| m[k])
}

/// The table after an event of `key` at `now`: the event is recorded unless
/// it was debounced, then stale entries are purged.
pub open spec fn debounce_next(m: Map<u32, u64>, key: u32, now: u64) -> Map<u32, u64> {
    purged(
        if debounced_at(m, key, now) {
            m
        } else {
            m.insert(key, now)
        },
        now,
    )
}

fn purge_stale(m: &HashMap<u32, u64>, now: u64) -> (r: HashMap<u32, u64>)
    ensures
        r@ == purged(m@, now),
{
    let mut out: HashMap<u32, u64> = HashMap::new();
    for (k, v) in it: m.iter()
        invariant
            forall|x: u32| #[trigger] out@.contains_key(x) <==> (exists|i: int| 0 <= i < it.index() && *it.seq()[i].0 == x) && m@.contains_key(x) && since(now, m@[x]) < DEBOUNCE_PURGE_MS,
            forall|x: u32| out@.contains_key(x) ==> out@[x] == m@[x],
            forall|i: int| 0 <= i < it.seq().len() ==> m@.contains_key(*it.seq()[i].0) && m@[*it.seq()[i].0] == *it.seq()[i].1,
    {
        let el = if now >= *v {
            now - *v
        } else {
            0
        };
        if el < DEBOUNCE_PURGE_MS {
            out.insert(*k, *v);
        }
    }
    assert(out@ =~= purged(m@, now));
    out
}

/// Whether `key` fired within the last 400 ms; records the event when it did
/// not, and purges entries older than a minute either way.
pub fn wmi_key_debounced(table: &mut DebounceTable, key_code: u32, now: u64) -> (debounced: bool)
    ensures
        debounced == debounced_at(old(table).entries@, key_code, now),
        final(table).entries@ == debounce_next(old(table).entries@, key_code, now),
{
    let debounced = match table.entries.get(&key_code) {
        Some(t) => {
            let el = if now >= *t {
                now - *t
            } else {
                0
            };
            el < DEBOUNCE_MS
        },
        None => false,
    };
    if !debounced {
        table.entries.insert(key_code, now);
    }
    let kept = purge_stale(&table.entries, now);
    table.entries = kept;
    debounced
}

/// Two different keys never debounce each other: an event of `k2` leaves the
/// record of `k1` as the purge alone would.
pub proof fn law_keys_independent(m: Map<u32, u64>, k1: u32, k2: u32, now: u64)
    requires
        k1 != k2,
    ensures
        debounce_next(m, k2, now).contains_key(k1) == purged(m, now).contains_key(k1),
        purged(m, now).contains_key(k1) ==> debounce_next(m, k2, now)[k1] == m[k1],
        debounced_at(debounce_next(m, k2, now), k1, now) == debounced_at(purged(m, now), k1, now),
{
}

// ── Raw input, WM_HOTKEY and WMI decisions ──────────────────────────────────

/// Whether a HID device is read for key reports: Consumer Controls (usage
/// page 0x0C, usage 0x01) or any vendor-defined page (0xFF00 and above).
pub fn is_key_report_device(usage_page: u16, usage: u16) -> (r: bool)
    ensures
        r == ((usage_page == 0x0C && usage == 0x01) || usage_page >= 0xFF00),
{
    (usage_page == 0x0C && usage == 0x01) || usage_page >= 0xFF00
}

/// What a consumer-control usage does.
#[derive(Debug, Clone, Copy, PartialEq, Eq, Structural)]
pub enum ConsumerAction {
    /// Mic/audio mute key: toggle the mic-mute OSD.
    MicMuteOsd,
    /// Keyboard backlight key: show the backlight OSD.
    KeyboardOsd,
    /// App-launch or search key: focus MiControl.
    FocusMicontrol,
    /// Anything else.
    Ignore,
}

pub open spec fn consumer_action(usage: u16) -> ConsumerAction {
    if usage == 0x00E2 || usage == 0x00CF || usage == 0x0169 {
        ConsumerAction::MicMuteOsd
    } else if usage == 0x0271 || usage == 0x01BB || usage == 0x0073 {
        ConsumerAction::KeyboardOsd
    } else if usage == 0x01B3 || usage == 0x01B6 || usage == 0x0221 || usage == 0x01B1 {
        ConsumerAction::FocusMicontrol
    } else {
        ConsumerAction::Ignore
    }
}

/// The action of a HID consumer-control usage.
pub fn dispatch_consumer_usage(usage: u16) -> (r: ConsumerAction)
    ensures
        r == consumer_action(usage),
        usage == 0x01B3 || usage == 0x01B6 || usage == 0x0221 || usage == 0x01B1 ==> r
            == ConsumerAction::FocusMicontrol,
        usage == 0x00E2 || usage == 0x00CF || usage == 0x0169 ==> r == ConsumerAction::MicMuteOsd,
        usage == 0x0271 || usage == 0x01BB || usage == 0x0073 ==> r == ConsumerAction::KeyboardOsd,
{
    if usage == 0x00E2 || usage == 0x00CF || usage == 0x0169 {
        ConsumerAction::MicMuteOsd
    } else if usage == 0x0271 || usage == 0x01BB || usage == 0x0073 {
        ConsumerAction::KeyboardOsd
    } else if usage == 0x01B3 || usage == 0x01B6 || usage == 0x0221 || usage == 0x01B1 {
        ConsumerAction::FocusMicontrol
    } else {
        ConsumerAction::Ignore
    }
}

/// The consumer-control keys: AL Application Launch (0x01B3, the Xiaomi AI
/// key), AL Task/Project Manager (0x01B6), AC Search (0x0221) and AL
/// Consumer Control Configuration (0x01B1) focus MiControl; Mute (0x00E2),
/// Voice Command (0x00CF) and AL Spreadsheet (0x0169, sent by the mic key)
/// show the mic OSD; 0x0271, 0x01BB and 0x0073 (keyboard backlight) show the
/// backlight OSD; every other usage is ignored.
pub proof fn law_consumer_usages(u: u16)
    ensures
        (u == 0x01B3 || u == 0x01B6 || u == 0x0221 || u == 0x01B1) <==> consumer_action(u)
            == ConsumerAction::FocusMicontrol,
        (u == 0x00E2 || u == 0x00CF || u == 0x0169) <==> consumer_action(u)
            == ConsumerAction::MicMuteOsd,
        (u == 0x0271 || u == 0x01BB || u == 0x0073) <==> consumer_action(u)
            == ConsumerAction::KeyboardOsd,
{
}

/// A report with a report id carries its usage little-endian in bytes 1-2,
/// so `[0x02, 0xB3, 0x01]` (the AI key, usage 0x01B3) focuses MiControl and
/// any report whose bytes 1-2 spell one of the focus, mic or backlight usages
/// gets that usage's action.
pub proof fn law_report_usage_little_endian(r: Seq<u8>)
    requires
        3 <= r.len() <= 64,
    ensures
        report_usage(r) == r[1] as int + 256 * r[2] as int,
        (r[1] == 0xB3 && r[2] == 0x01) ==> consumer_action(report_usage(r))
            == ConsumerAction::FocusMicontrol,
{
}

/// The consumer usage in a raw HID report: bytes 1-2 little-endian when it
/// has a report id (3 bytes or more), else bytes 0-1, else byte 0.
pub open spec fn report_usage(r: Seq<u8>) -> u16 {
    if r.len() >= 3 {
        (r[1] as int + r[2] as int * 256) as u16
    } else if r.len() >= 2 {
        (r[0] as int + r[1] as int * 256) as u16
    } else {
        r[0] as u16
    }
}

/// A raw HID report (1 to 64 bytes): its usage is offered to detect mode
/// (as `0x8000 | usage`) and then acted on.
pub fn handle_raw_hid_report(state: &mut RemapState, report: &[u8]) -> (r: ConsumerAction)
    ensures
        report@.len() == 0 || report@.len() > 64 ==> r == ConsumerAction::Ignore && *final(state)
            == *old(state),
        0 < report@.len() <= 64 ==> ({
            let u = report_usage(report@);
            &&& r == (if u != 0 {
                consumer_action(u)
            } else {
                ConsumerAction::Ignore
            })
            &&& *final(state) == (if u != 0 {
                captured(*old(state), (0x8000 | u) as u32)
            } else {
                *old(state)
            })
        }),
{
    let total = report.len();
    if total == 0 || total > 64 {
        return ConsumerAction::Ignore;
    }
    let usage: u16 = if total >= 3 {
        report[1] as u16 + report[2] as u16 * 256
    } else if total >= 2 {
        report[0] as u16 + report[1] as u16 * 256
    } else {
        report[0] as u16
    };
    if usage != 0 {
        capture_key(state, (0x8000 | usage) as u32);
        dispatch_consumer_usage(usage)
    } else {
        ConsumerAction::Ignore
    }
}

/// Modifier keys, which detect mode does not record.
pub open spec fn is_modifier(vk: u32) -> bool {
    (0x10 <= vk <= 0x12) || vk == 0x14 || vk == 0x5B || vk == 0x5C || (0xA0 <= vk <= 0xA5)
}

/// A raw keyboard event: on key-down a non-modifier key is offered to
/// detect mode, and the bound action (if any) is returned.
pub fn handle_keyboard_raw_input(
    state: &mut RemapState,
    config: &Option<HotkeyMap>,
    vk: u32,
    flags: u16,
) -> (r: Option<HotkeyAction>)
    ensures
        flags & 1 != 0 ==> r is None && *final(state) == *old(state),
        flags & 1 == 0 ==> *final(state) == (if is_modifier(vk) {
            *old(state)
        } else {
            captured(*old(state), vk)
        }) && same_opt_action(
            r,
            match *config {
                Some(m) => match binding_for(m, vk) {
                    Some(b) => active_action(b),
                    None => None,
                },
                None => None,
            },
        ),
{
    if flags & 1 != 0 {
        return None;
    }
    if !((0x10 <= vk && vk <= 0x12) || vk == 0x14 || vk == 0x5B || vk == 0x5C || (0xA0 <= vk
        && vk <= 0xA5)) {
        capture_key(state, vk);
    }
    resolve_action(config, vk)
}

/// What a WM_HOTKEY message leads to.
#[derive(Debug, Clone, PartialEq, Eq)]
pub enum HotkeyMessageOutcome {
    /// Not one of our hotkey ids.
    Ignored,
    /// No enabled binding.
    NoAction,
    /// Start a remap from `source` to `target`.
    Remap { source: u32, target: u32, extended: bool },
    /// Dispatch the action.
    Dispatch(HotkeyAction),
}

pub open spec fn hotkey_id_vk(id: i32) -> Option<u32> {
    if id == 101 {
        Some(VK_AI_KEY)
    } else if id == 102 {
        Some(VK_XIAOMI_KEY)
    } else if id == 103 {
        Some(VK_COPILOT)
    } else {
        None
    }
}

/// A WM_HOTKEY for one of the three registered ids (101 AI, 102 Xiaomi,
/// 103 Copilot): detect mode records the key, then the binding decides.
pub fn handle_hotkey_message(state: &mut RemapState, config: &Option<HotkeyMap>, id: i32) -> (r:
    HotkeyMessageOutcome)
    ensures
        match hotkey_id_vk(id) {
            None => r == HotkeyMessageOutcome::Ignored && *final(state) == *old(state),
            Some(vk) => {
                &&& *final(state) == captured(*old(state), vk)
                &&& match (match *config {
                    Some(m) => match binding_for(m, vk) {
                        Some(b) => active_action(b),
                        None => None,
                    },
                    None => None,
                }) {
                    None => r == HotkeyMessageOutcome::NoAction,
                    Some(HotkeyAction::RemapToKey { vk: t, extended }) => r == (
                    HotkeyMessageOutcome::Remap { source: vk, target: t, extended }),
                    Some(a) => r matches HotkeyMessageOutcome::Dispatch(d) && same_action(d, a),
                }
            },
        },
{
    let vk: u32 = if id == 101 {
        VK_AI_KEY
    } else if id == 102 {
        VK_XIAOMI_KEY
    } else if id == 103 {
        VK_COPILOT
    } else {
        return HotkeyMessageOutcome::Ignored;
    };
    capture_key(state, vk);
    match resolve_action(config, vk) {
        None => HotkeyMessageOutcome::NoAction,
        Some(HotkeyAction::RemapToKey { vk: target, extended }) => HotkeyMessageOutcome::Remap {
            source: vk,
            target,
            extended,
        },
        Some(a) => HotkeyMessageOutcome::Dispatch(a),
    }
}

/// What a WMI HID key event leads to.
#[derive(Debug, Clone, PartialEq, Eq)]
pub enum WmiKeyOutcome {
    /// Recorded by detect mode (or seen while in it); nothing else happens.
    Detected,
    /// A key release, or a key without a binding.
    Ignored,
    /// A repeat within the debounce window.
    Debounced,
    /// Fn+F4: show the mic-mute OSD and set the system mic mute.
    MicMute { muted: bool },
    /// Fn+F10: show the keyboard backlight OSD at this level.
    KeyboardLevel(u8),
    /// Send Win + this key (Fn+F8: P, Fn+F9: I).
    WinCombo(u16),
    /// Dispatch the bound action.
    Dispatch(HotkeyAction),
}

pub open spec fn byte_at(d: Seq<u8>, i: int, dflt: u8) -> u8 {
    if i < d.len() {
        d[i]
    } else {
        dflt
    }
}

fn byte_at_exec(d: &[u8], i: usize, dflt: u8) -> (r: u8)
    ensures
        r == byte_at(d@, i as int, dflt),
{
    if i < d.len() {
        d[i]
    } else {
        dflt
    }
}

/// The binding that a HID_EVENT20 key code selects: 0x25 the Xiaomi key,
/// 0x23 the AI key.
pub open spec fn wmi_binding(m: HotkeyMap, code: u32) -> Option<KeyBinding> {
    if code == 0x25 {
        Some(m.xiaomi_key)
    } else if code == 0x23 {
        Some(m.ai_key)
    } else {
        None
    }
}

/// Everything but the detect-mode and debounce part of a WMI key-down.
pub open spec fn wmi_key_action(config: Option<HotkeyMap>, event20: bool, code: u32, detail: Seq<u8>) -> Option<WmiKeyOutcome> {
    if event20 && code == 0x21 {
        Some(WmiKeyOutcome::MicMute { muted: byte_at(detail, 2, 1) == 0 })
    } else if event20 && code == 0x05 {
        Some(WmiKeyOutcome::KeyboardLevel(byte_at(detail, 2, 0xFF)))
    } else if event20 && code == 0x01 {
        Some(WmiKeyOutcome::WinCombo(0x50))
    } else if event20 && code == 0x1B {
        Some(WmiKeyOutcome::WinCombo(0x49))
    } else {
        None
    }
}

/// A WMI HID key event from class `class_name` (index `class_idx`):
/// detect mode takes it first; releases are ignored; repeats within 400 ms of
/// the same key are dropped; Fn+F4/F10/F8/F9 have fixed actions; the AI and
/// Xiaomi keys follow their bindings.
pub fn handle_hid_wmi_event(
    state: &mut RemapState,
    table: &mut DebounceTable,
    config: &Option<HotkeyMap>,
    class_name: &str,
    class_idx: u32,
    active: bool,
    detail: &[u8],
    now: u64,
) -> (r: WmiKeyOutcome)
    ensures
        ({
            let code = byte_at(detail@, 1, 0) as u32;
            let event20 = class_name@ == "HID_EVENT20"@;
            if active && *old(state) is AwaitingKey {
                r == WmiKeyOutcome::Detected && *final(state) == captured(
                    *old(state),
                    0xA000u32 | (class_idx << 8u32) | code,
                ) && final(table).entries@ == old(table).entries@
            } else if !active {
                *final(state) == *old(state) && final(table).entries@ == old(table).entries@
                    && r == (if *old(state) is AwaitingKey {
                    WmiKeyOutcome::Detected
                } else {
                    WmiKeyOutcome::Ignored
                })
            } else {
                let key = (class_idx << 8u32) | code;
                let db = debounced_at(old(table).entries@, key, now);
                &&& *final(state) == *old(state)
                &&& final(table).entries@ == debounce_next(old(table).entries@, key, now)
                &&& db ==> r == WmiKeyOutcome::Debounced
                &&& !db ==> match wmi_key_action(*config, event20, code, detail@) {
                    Some(o) => r == o,
                    None => match *config {
                        Some(m) => match (if event20 {
                            wmi_binding(m, code)
                        } else {
                            None
                        }) {
                            Some(b) => match active_action(b) {
                                Some(a) => r matches WmiKeyOutcome::Dispatch(d) && same_action(d, a),
                                None => r == WmiKeyOutcome::Ignored,
                            },
                            None => r == WmiKeyOutcome::Ignored,
                        },
                        None => r == WmiKeyOutcome::Ignored,
                    },
                }
            }
        }),
{
    let code = byte_at_exec(detail, 1, 0) as u32;
    if active {
        let synthetic = 0xA000u32 | (class_idx << 8u32) | code;
        if capture_key(state, synthetic) {
            return WmiKeyOutcome::Detected;
        }
    } else {
        let awaiting = match state {
            RemapState::AwaitingKey { .. } => true,
            RemapState::Idle => false,
        };
        if awaiting {
            return WmiKeyOutcome::Detected;
        }
        return WmiKeyOutcome::Ignored;
    }
    let key = (class_idx << 8u32) | code;
    if wmi_key_debounced(table, key, now) {
        return WmiKeyOutcome::Debounced;
    }
    let event20 = chars_eq(&chars_of(class_name), &chars_of("HID_EVENT20"));
    if event20 && code == 0x21 {
        return WmiKeyOutcome::MicMute { muted: byte_at_exec(detail, 2, 1) == 0 };
    }
    if event20 && code == 0x05 {
        return WmiKeyOutcome::KeyboardLevel(byte_at_exec(detail, 2, 0xFF));
    }
    if event20 && code == 0x01 {
        return WmiKeyOutcome::WinCombo(0x50);
    }
    if event20 && code == 0x1B {
        return WmiKeyOutcome::WinCombo(0x49);
    }
    match config {
        None => WmiKeyOutcome::Ignored,
        Some(m) => {
            let b = if event20 && code == 0x25 {
                &m.xiaomi_key
            } else if event20 && code == 0x23 {
                &m.ai_key
            } else {
                return WmiKeyOutcome::Ignored;
            };
            match binding_action(b) {
                Some(a) => WmiKeyOutcome::Dispatch(a),
                None => WmiKeyOutcome::Ignored,
            }
        },
    }
}


// ── Script actions ──────────────────────────────────────────────────────────

/// A path separator on Windows.
pub open spec fn is_sep(c: char) -> bool {
    c == '\\' || c == '/'
}

/// `p` without trailing separators.
pub open spec fn strip_seps(p: Seq<char>) -> Seq<char>
    decreases p.len(),
{
    if p.len() > 0 && is_sep(p.last()) {
        strip_seps(p.drop_last())
    } else {
        p
    }
}

/// Position of the last separator among the first `n` characters.
pub open spec fn last_sep(p: Seq<char>, n: int) -> int
    decreases n,
{
    if n <= 0 {
        -1
    } else if is_sep(p[n - 1]) {
        n - 1
    } else {
        last_sep(p, n - 1)
    }
}

/// The final component of a Windows path (after trailing separators are
/// dropped); `None` when it is empty or `..`.
pub open spec fn file_name(p: Seq<char>) -> Option<Seq<char>> {
    let st = strip_seps(p);
    let name = st.skip(last_sep(st, st.len() as int) + 1);
    if name.len() == 0 || name == ".."@ {
        None
    } else {
        Some(name)
    }
}

/// The path before the final component, without trailing separators.
pub open spec fn parent_dir(p: Seq<char>) -> Seq<char> {
    let st = strip_seps(p);
    let k = last_sep(st, st.len() as int);
    if k < 0 {
        Seq::<char>::empty()
    } else {
        strip_seps(st.take(k))
    }
}

pub open spec fn system32() -> Seq<char> {
    "c:\\windows\\system32"@
}

/// The executables that may run a script directly, with the directory each
/// must be in (ASCII case ignored).
pub open spec fn allowed_exe(name: Seq<char>, parent: Seq<char>) -> bool {
    ||| name == "cmd.exe"@ && parent == system32()
    ||| name == "powershell.exe"@ && parent == "c:\\windows\\system32\\windowspowershell\\v1.0"@
    ||| name == "wscript.exe"@ && parent == system32()
    ||| name == "cscript.exe"@ && parent == system32()
}

/// What canonicalising the script path gave: the path was not found, or it
/// resolved to `resolved`, and `allowed` are the canonical forms of the
/// allowlisted System32 executables that exist.
#[derive(Debug, Clone, PartialEq, Eq)]
pub enum PathResolution {
    NotFound,
    Found { resolved: String, allowed: Vec<String> },
}

pub open spec fn not_allowlisted_msg(path: Seq<char>) -> Seq<char> {
    "Script executable '"@ + path
        + "' is not in the allowlist. Only cmd.exe, powershell.exe, wscript.exe, and cscript.exe from System32 are permitted."@
}

pub open spec fn no_file_name_msg(path: Seq<char>) -> Seq<char> {
    "Script executable '"@ + path + "' has no valid file name component."@
}

/// The allowlist decision: named interpreters are always allowed; a direct
/// executable must be one of the allowlisted System32 executables, compared
/// by canonical path when it exists, else by file name and directory.
/// Elsewhere than on Windows script actions are refused.
pub open spec fn validate_spec(interpreter: Seq<char>, path: Seq<char>, on_windows: bool, res: PathResolution) -> Result<(), Seq<char>> {
    if !on_windows {
        Err("Script actions are not supported on this platform"@)
    } else if interpreter == "powershell"@ || interpreter == "cmd"@ {
        Ok(())
    } else {
        match res {
            PathResolution::Found { resolved, allowed } => if exists|i: int|
                0 <= i < allowed@.len() && #[trigger] allowed@[i]@ == resolved@ {
                Ok(())
            } else {
                Err(not_allowlisted_msg(path))
            },
            PathResolution::NotFound => match file_name(path) {
                None => Err(no_file_name_msg(path)),
                Some(n) => if allowed_exe(lower_seq(n), lower_seq(parent_dir(path))) {
                    Ok(())
                } else {
                    Err(not_allowlisted_msg(path))
                },
            },
        }
    }
}

pub(crate) fn strip_seps_len(p: &Vec<char>, n: usize) -> (m: usize)
    requires
        n <= p.len(),
    ensures
        m <= n,
        strip_seps(p@.take(n as int)) == p@.take(m as int),
{
    let mut m = n;
    while m > 0 && (p[m - 1] == '\\' || p[m - 1] == '/')
        invariant
            m <= n <= p.len(),
            strip_seps(p@.take(n as int)) == strip_seps(p@.take(m as int)),
        decreases m,
    {
        assert(p@.take(m as int).drop_last() == p@.take(m - 1));
        m -= 1;
    }
    proof {
        if m > 0 {
            assert(p@.take(m as int).last() == p@[m - 1]);
        }
    }
    m
}

pub(crate) fn last_sep_exec(p: &Vec<char>, n: usize) -> (k: Option<usize>)
    requires
        n <= p.len(),
    ensures
        match k {
            Some(i) => last_sep(p@, n as int) == i && i < n,
            None => last_sep(p@, n as int) == -1,
        },
{
    let mut m = n;
    while m > 0
        invariant
            m <= n <= p.len(),
            last_sep(p@, n as int) == last_sep(p@, m as int),
        decreases m,
    {
        if p[m - 1] == '\\' || p[m - 1] == '/' {
            return Some(m - 1);
        }
        m -= 1;
    }
    None
}

fn str_of_eq(v: &Vec<char>, s: &str) -> (r: bool)
    ensures
        r == (v@ == s@),
{
    chars_eq(v, &chars_of(s))
}

fn quoted_msg(path: &str, tail: &str) -> (r: String)
    ensures
        r@ == "Script executable '"@ + path@ + tail@,
{
    let mut m = chars_of("Script executable '");
    append_str(&mut m, path);
    append_str(&mut m, tail);
    string_of(&m)
}

/// Checks that a script's interpreter or executable is allowlisted.
#[verifier::loop_isolation(false)]
pub fn validate_script_path(interpreter: &str, path: &str, on_windows: bool, resolution: &PathResolution) -> (r: Result<(), String>)
    ensures
        match validate_spec(interpreter@, path@, on_windows, *resolution) {
            Ok(()) => r is Ok,
            Err(m) => r matches Err(e) && e@ == m,
        },
{
    if !on_windows {
        return Err(string_of(&chars_of("Script actions are not supported on this platform")));
    }
    let interp = chars_of(interpreter);
    if str_of_eq(&interp, "powershell") || str_of_eq(&interp, "cmd") {
        return Ok(());
    }
    match resolution {
        PathResolution::Found { resolved, allowed } => {
            let mut i: usize = 0;
            while i < allowed.len()
                invariant
                    i <= allowed.len(),
                    forall|k: int| 0 <= k < i ==> allowed@[k]@ != resolved@,
                decreases allowed.len() - i,
            {
                if allowed[i] == *resolved {
                    assert(allowed@[i as int]@ == resolved@);
                    return Ok(());
                }
                i += 1;
            }
            Err(quoted_msg(path, "' is not in the allowlist. Only cmd.exe, powershell.exe, wscript.exe, and cscript.exe from System32 are permitted."))
        },
        PathResolution::NotFound => {
            let p = chars_of(path);
            let m = strip_seps_len(&p, p.len());
            assert(p@.take(p.len() as int) == p@);
            let st = slice_chars(&p, 0, m);
            assert(st@ == strip_seps(p@));
            let k = last_sep_exec(&st, m);
            proof {
                assert forall|j: int| 0 <= j <= m implies last_sep(st@, j) == last_sep(p@.take(m as int), j) by {
                    lemma_last_sep_prefix(st@, p@.take(m as int), j);
                }
            }
            let start: usize = match k {
                Some(i) => i + 1,
                None => 0,
            };
            let name = slice_chars(&st, start, m);
            assert(name@ == st@.skip(start as int));
            if name.len() == 0 || str_of_eq(&name, "..") {
                return Err(quoted_msg(path, "' has no valid file name component."));
            }
            let parent: Vec<char> = match k {
                None => Vec::new(),
                Some(i) => {
                    let pm = strip_seps_len(&st, i);
                    slice_chars(&st, 0, pm)
                },
            };
            proof {
                match k {
                    Some(i) => {
                        assert(st@.take(i as int) == st@.take(i as int));
                        assert(parent@ == strip_seps(st@.take(i as int)));
                    },
                    None => {},
                }
            }
            let ln = ascii_lower(&name);
            let lp = ascii_lower(&parent);
            let sys32 = "c:\\windows\\system32";
            let ok = (str_of_eq(&ln, "cmd.exe") && str_of_eq(&lp, sys32)) || (str_of_eq(
                &ln,
                "powershell.exe",
            ) && str_of_eq(&lp, "c:\\windows\\system32\\windowspowershell\\v1.0")) || (
            str_of_eq(&ln, "wscript.exe") && str_of_eq(&lp, sys32)) || (str_of_eq(
                &ln,
                "cscript.exe",
            ) && str_of_eq(&lp, sys32));
            if ok {
                Ok(())
            } else {
                Err(quoted_msg(path, "' is not in the allowlist. Only cmd.exe, powershell.exe, wscript.exe, and cscript.exe from System32 are permitted."))
            }
        },
    }
}

proof fn lemma_last_sep_prefix(a: Seq<char>, b: Seq<char>, n: int)
    requires
        a == b,
    ensures
        last_sep(a, n) == last_sep(b, n),
{
}


/// The bytes hashed to identify a script: interpreter, path and each
/// argument, each followed by a NUL byte.
pub open spec fn script_id_bytes(interpreter: Seq<char>, path: Seq<char>, args: Seq<Seq<char>>) -> Seq<u8>
    decreases args.len(),
{
    if args.len() == 0 {
        encode_utf8(interpreter) + seq![0u8] + encode_utf8(path) + seq![0u8]
    } else {
        script_id_bytes(interpreter, path, args.drop_last()) + encode_utf8(args.last()) + seq![0u8]
    }
}

/// The lower-case hex SHA-256 of a script's identity (consent key).
pub fn script_hash(interpreter: &str, path: &str, args: &Vec<String>) -> (h: String)
    ensures
        h@ == hex_lower(sha256(script_id_bytes(interpreter@, path@, strings_view(args@)))),
{
    let mut data: Vec<u8> = Vec::new();
    append_bytes(&mut data, interpreter.as_bytes());
    data.push(0);
    append_bytes(&mut data, path.as_bytes());
    data.push(0);
    assert(data@ == script_id_bytes(interpreter@, path@, strings_view(args@.take(0))));
    let mut i: usize = 0;
    while i < args.len()
        invariant
            i <= args.len(),
            data@ == script_id_bytes(interpreter@, path@, strings_view(args@.take(i as int))),
        decreases args.len() - i,
    {
        append_bytes(&mut data, args[i].as_str().as_bytes());
        data.push(0);
        assert(strings_view(args@.take(i as int + 1)).drop_last() == strings_view(args@.take(i as int)));
        assert(strings_view(args@.take(i as int + 1)).last() == args@[i as int]@);
        i += 1;
    }
    assert(args@.take(args.len() as int) == args@);
    let d = sha256_digest(data.as_slice());
    string_of(&hex_lower_exec(&d))
}

/// The boolean member `key` of the JSON object in `content`, if it parses
/// and has one.
pub uninterp spec fn json_bool_member(content: Seq<char>, key: Seq<char>) -> Option<bool>;

/// `serde_json::from_str::<serde_json::Value>`, then the member `key` as a
/// boolean.
#[verifier::external_body]
fn json_object_bool(content: &str, key: &str) -> (r: Option<bool>)
    ensures
        r == json_bool_member(content@, key@),
{
    match serde_json::from_str::<serde_json::Value>(content) {
        Ok(v) => match v.get(key) {
            Some(x) => x.as_bool(),
            None => None,
        },
        Err(_) => None,
    }
}

/// Whether "Always Allow" consent was granted for the script, given the
/// consent file's text (`None` when it could not be read).
pub fn has_consent(interpreter: &str, path: &str, args: &Vec<String>, consent_file: &Option<String>) -> (r: bool)
    ensures
        r == (match *consent_file {
            None => false,
            Some(c) => json_bool_member(
                c@,
                hex_lower(sha256(script_id_bytes(interpreter@, path@, strings_view(args@)))),
            ) == Some(true),
        }),
{
    let hash = script_hash(interpreter, path, args);
    match consent_file {
        None => false,
        Some(c) => match json_object_bool(c.as_str(), hash.as_str()) {
            Some(b) => b,
            None => false,
        },
    }
}

/// The script-action feature flag, from its registry value; never on other
/// platforms than Windows.
pub fn is_script_action_enabled(on_windows: bool, flag: Option<u32>) -> (r: bool)
    ensures
        r == (on_windows && (flag matches Some(v) && v != 0)),
{
    on_windows && match flag {
        Some(v) => v != 0,
        None => false,
    }
}

/// Result of the security checks in front of a script action.
#[derive(Debug, Clone, PartialEq, Eq)]
pub enum ScriptCheckResult {
    Allowed,
    /// The feature flag is off.
    Disabled,
    /// The executable is not allowlisted.
    NotAllowlisted(String),
    /// No consent was granted for this script.
    ConsentRequired,
}

/// Everything a script check needs to know about the machine.
pub struct ScriptEnv {
    pub on_windows: bool,
    /// The `EnableScriptActions` registry value.
    pub enabled_flag: Option<u32>,
    pub resolution: PathResolution,
    /// The consent file's text.
    pub consent_file: Option<String>,
}

/// What the checks give, in order: feature flag, allowlist, consent.
pub open spec fn script_check_result(
    r: ScriptCheckResult,
    interpreter: Seq<char>,
    path: Seq<char>,
    args: Seq<Seq<char>>,
    env: ScriptEnv,
) -> bool {
    if !(env.on_windows && (env.enabled_flag matches Some(v) && v != 0)) {
        r == ScriptCheckResult::Disabled
    } else {
        match validate_spec(interpreter, path, env.on_windows, env.resolution) {
            Err(m) => r matches ScriptCheckResult::NotAllowlisted(e) && e@ == m,
            Ok(()) => r == (if (match env.consent_file {
                None => false,
                Some(c) => json_bool_member(
                    c@,
                    hex_lower(sha256(script_id_bytes(interpreter, path, args))),
                ) == Some(true),
            }) {
                ScriptCheckResult::Allowed
            } else {
                ScriptCheckResult::ConsentRequired
            }),
        }
    }
}

/// The checks, in order: feature flag, allowlist, consent.
pub fn check_script_action(interpreter: &str, path: &str, args: &Vec<String>, env: &ScriptEnv) -> (r: ScriptCheckResult)
    ensures
        script_check_result(r, interpreter@, path@, strings_view(args@), *env),
{
    if !is_script_action_enabled(env.on_windows, env.enabled_flag) {
        return ScriptCheckResult::Disabled;
    }
    match validate_script_path(interpreter, path, env.on_windows, &env.resolution) {
        Err(e) => return ScriptCheckResult::NotAllowlisted(e),
        Ok(()) => {},
    }
    if !has_consent(interpreter, path, args, &env.consent_file) {
        return ScriptCheckResult::ConsentRequired;
    }
    ScriptCheckResult::Allowed
}

// ── Dispatch ────────────────────────────────────────────────────────────────

/// The scheme that the `url` crate parses out of `s`, if it parses.
pub uninterp spec fn url_scheme_of(s: Seq<char>) -> Option<Seq<char>>;

/// `url::Url::parse`, then its scheme.
#[verifier::external_body]
fn url_scheme(s: &str) -> (r: Option<String>)
    ensures
        match url_scheme_of(s@) {
            Some(x) => r matches Some(y) && y@ == x,
            None => r is None,
        },
{
    match url::Url::parse(s) {
        Ok(u) => Some(u.scheme().to_string()),
        Err(_) => None,
    }
}

/// Only http and https URLs may be opened.
pub open spec fn url_openable(url: Seq<char>) -> bool {
    url_scheme_of(url) matches Some(sc) && (sc == "http"@ || sc == "https"@)
}

pub fn is_openable_url(url: &str) -> (r: bool)
    ensures
        r == url_openable(url@),
{
    match url_scheme(url) {
        Some(sc) => {
            let v = chars_of(sc.as_str());
            str_of_eq(&v, "http") || str_of_eq(&v, "https")
        },
        None => false,
    }
}

pub open spec fn media_vk(action: Seq<char>) -> Option<u16> {
    if action == "volume_up"@ {
        Some(0xAF)
    } else if action == "volume_down"@ {
        Some(0xAE)
    } else if action == "mute"@ {
        Some(0xAD)
    } else if action == "play_pause"@ {
        Some(0xB3)
    } else if action == "next"@ {
        Some(0xB0)
    } else if action == "prev"@ {
        Some(0xB1)
    } else {
        None
    }
}

/// The virtual key of a media action name.
pub fn media_key_vk(action: &str) -> (r: Option<u16>)
    ensures
        r == media_vk(action@),
{
    let a = chars_of(action);
    if str_of_eq(&a, "volume_up") {
        Some(0xAF)
    } else if str_of_eq(&a, "volume_down") {
        Some(0xAE)
    } else if str_of_eq(&a, "mute") {
        Some(0xAD)
    } else if str_of_eq(&a, "play_pause") {
        Some(0xB3)
    } else if str_of_eq(&a, "next") {
        Some(0xB0)
    } else if str_of_eq(&a, "prev") {
        Some(0xB1)
    } else {
        None
    }
}

/// What dispatching an action amounts to.
#[derive(Debug, Clone, PartialEq, Eq)]
pub enum ActionPlan {
    Nothing,
    /// Show and focus MiControl (through the focus callback).
    Focus,
    /// Show the main window (through its callback).
    OpenMain,
    /// Open this http(s) URL with the shell.
    OpenUrl(String),
    /// The URL was refused (not http/https, or unparsable).
    RejectUrl,
    /// Start this program with these arguments, without a window.
    Spawn { program: String, args: Vec<String> },
    SetMode(PerformanceMode),
    UnknownMode,
    ToggleAiBrightness,
    /// Press and release this media key.
    MediaKey(u16),
    UnknownMedia,
    /// A script that did not pass its checks.
    ScriptRefused(ScriptCheckResult),
}

/// What the machine says about the action's targets.
pub struct DispatchEnv {
    /// Whether a focus callback is registered.
    pub focus_registered: bool,
    /// Whether a LaunchApp target is our own executable.
    pub launch_is_self: bool,
    pub script: ScriptEnv,
}

pub open spec fn prefixed(pre: Seq<Seq<char>>, args: Seq<String>) -> Seq<Seq<char>> {
    pre + strings_view(args)
}

fn spawn_args(pre: Vec<String>, args: &Vec<String>) -> (r: Vec<String>)
    ensures
        strings_view(r@) == prefixed(strings_view(pre@), args@),
{
    let mut r = pre;
    let ghost start = r@;
    let mut i: usize = 0;
    while i < args.len()
        invariant
            i <= args.len(),
            strings_view(r@) == strings_view(start) + strings_view(args@.take(i as int)),
        decreases args.len() - i,
    {
        let a = args[i].clone();
        let ghost before = r@;
        r.push(a);
        assert(strings_view(r@) == strings_view(before).push(a@));
        assert(strings_view(args@.take(i as int + 1)) == strings_view(args@.take(i as int)).push(
            args@[i as int]@,
        ));
        i += 1;
    }
    assert(args@.take(args.len() as int) == args@);
    r
}

/// The plan of a script that passed its checks.
pub open spec fn script_spawn(interpreter: Seq<char>, path: Seq<char>, program: Seq<char>, args: Seq<Seq<char>>, given: Seq<String>) -> bool {
    if interpreter == "powershell"@ {
        program == "powershell"@ && args == prefixed(
            seq!["-NoProfile"@, "-NonInteractive"@, "-File"@, path],
            given,
        )
    } else if interpreter == "cmd"@ {
        program == "cmd"@ && args == prefixed(seq!["/C"@, path], given)
    } else {
        program == path && args == strings_view(given)
    }
}

/// The string that `serde_json` reads from the JSON string literal with
/// `text` between double quotes (escapes decoded), if it is one.
pub uninterp spec fn json_unquoted(text: Seq<char>) -> Option<Seq<char>>;

/// `serde_json::from_str::<String>` on `text` put between double quotes.
#[verifier::external_body]
fn json_unquote(text: &str) -> (r: Option<String>)
    ensures
        match json_unquoted(text@) {
            Some(n) => r matches Some(x) && x@ == n,
            None => r is None,
        },
{
    serde_json::from_str::<String>(&format!("\"{text}\"")).ok()
}

/// Decides what an action does: URLs only with http/https, a launch of our
/// own executable focuses the window instead, performance modes by name,
/// media keys by name, scripts only after every check passed.
pub fn dispatch_action(action: &HotkeyAction, env: &DispatchEnv) -> (plan: ActionPlan)
    ensures
        match *action {
            HotkeyAction::NoAction => plan == ActionPlan::Nothing,
            HotkeyAction::RemapToKey { .. } => plan == ActionPlan::Nothing,
            HotkeyAction::FocusMicontrol => plan == ActionPlan::Focus,
            HotkeyAction::OpenMainWindow => plan == ActionPlan::OpenMain,
            HotkeyAction::OpenUrl { url } => if url_openable(url@) {
                plan matches ActionPlan::OpenUrl(u) && u@ == url@
            } else {
                plan == ActionPlan::RejectUrl
            },
            HotkeyAction::LaunchApp { path, args } => if env.launch_is_self && env.focus_registered {
                plan == ActionPlan::Focus
            } else {
                plan matches ActionPlan::Spawn { program, args: a } && program@ == path@
                    && strings_view(a@) == strings_view(args@)
            },
            HotkeyAction::SetPerformanceMode { mode } => match json_unquoted(mode@) {
                Some(n) => match mode_named(n) {
                    Some(m) => plan == ActionPlan::SetMode(m),
                    None => plan == ActionPlan::UnknownMode,
                },
                None => plan == ActionPlan::UnknownMode,
            },
            HotkeyAction::ToggleAiBrightness => plan == ActionPlan::ToggleAiBrightness,
            HotkeyAction::MediaControl { action: a } => match media_vk(a@) {
                Some(vk) => plan == ActionPlan::MediaKey(vk),
                None => plan == ActionPlan::UnknownMedia,
            },
            HotkeyAction::Script { interpreter, path, args } => {
                let ok = (env.script.on_windows && (env.script.enabled_flag matches Some(v) && v
                    != 0)) && validate_spec(interpreter@, path@, env.script.on_windows, env.script.resolution) is Ok
                    && (match env.script.consent_file {
                    None => false,
                    Some(c) => json_bool_member(
                        c@,
                        hex_lower(sha256(script_id_bytes(interpreter@, path@, strings_view(args@)))),
                    ) == Some(true),
                });
                if ok {
                    plan matches ActionPlan::Spawn { program, args: a } && script_spawn(
                        interpreter@,
                        path@,
                        program@,
                        strings_view(a@),
                        args@,
                    )
                } else {
                    plan matches ActionPlan::ScriptRefused(r) && !(r is Allowed)
                        && script_check_result(
                        r,
                        interpreter@,
                        path@,
                        strings_view(args@),
                        env.script,
                    )
                }
            },
        },
{
    match action {
        HotkeyAction::NoAction => ActionPlan::Nothing,
        HotkeyAction::RemapToKey { .. } => ActionPlan::Nothing,
        HotkeyAction::FocusMicontrol => ActionPlan::Focus,
        HotkeyAction::OpenMainWindow => ActionPlan::OpenMain,
        HotkeyAction::OpenUrl { url } => {
            if is_openable_url(url.as_str()) {
                ActionPlan::OpenUrl(url.clone())
            } else {
                ActionPlan::RejectUrl
            }
        },
        HotkeyAction::LaunchApp { path, args } => {
            if env.launch_is_self && env.focus_registered {
                ActionPlan::Focus
            } else {
                ActionPlan::Spawn { program: path.clone(), args: copy_strings(args) }
            }
        },
        HotkeyAction::SetPerformanceMode { mode } => match json_unquote(mode.as_str()) {
            Some(n) => match PerformanceMode::from_name(n.as_str()) {
                Some(m) => ActionPlan::SetMode(m),
                None => ActionPlan::UnknownMode,
            },
            None => ActionPlan::UnknownMode,
        },
        HotkeyAction::ToggleAiBrightness => ActionPlan::ToggleAiBrightness,
        HotkeyAction::MediaControl { action: a } => match media_key_vk(a.as_str()) {
            Some(vk) => ActionPlan::MediaKey(vk),
            None => ActionPlan::UnknownMedia,
        },
        HotkeyAction::Script { interpreter, path, args } => {
            let r = check_script_action(interpreter.as_str(), path.as_str(), args, &env.script);
            match r {
                ScriptCheckResult::Allowed => {
                    let interp = chars_of(interpreter.as_str());
                    if str_of_eq(&interp, "powershell") {
                        let pre = vec![
                            str_of("-NoProfile"),
                            str_of("-NonInteractive"),
                            str_of("-File"),
                            path.clone(),
                        ];
                        assert(strings_view(pre@) == seq!["-NoProfile"@, "-NonInteractive"@, "-File"@, path@]);
                        ActionPlan::Spawn { program: str_of("powershell"), args: spawn_args(pre, args) }
                    } else if str_of_eq(&interp, "cmd") {
                        let pre = vec![str_of("/C"), path.clone()];
                        assert(strings_view(pre@) == seq!["/C"@, path@]);
                        ActionPlan::Spawn { program: str_of("cmd"), args: spawn_args(pre, args) }
                    } else {
                        ActionPlan::Spawn { program: path.clone(), args: copy_strings(args) }
                    }
                },
                other => ActionPlan::ScriptRefused(other),
            }
        },
    }
}

// ── The low-level keyboard hook ─────────────────────────────────────────────

/// F23, which some firmware sends with LWin+LShift instead of the Copilot key.
pub const VK_F23: u32 = 0x86;

/// The key remap in progress: the physical key held down and the key
/// injected for it; `source_vk` is 0 when none is.
#[derive(Debug, Clone, Copy, PartialEq, Eq, Structural)]
pub struct RemapTracking {
    pub source_vk: u32,
    pub target_vk: u32,
    pub target_extended: bool,
}

impl RemapTracking {
    pub fn new() -> (t: Self)
        ensures
            t == (RemapTracking { source_vk: 0, target_vk: 0, target_extended: false }),
    {
        RemapTracking { source_vk: 0, target_vk: 0, target_extended: false }
    }
}

/// A key event seen by the hook.
#[derive(Debug, Clone, Copy, PartialEq, Eq, Structural)]
pub struct HookKey {
    pub vk: u32,
    pub keydown: bool,
    pub keyup: bool,
    /// Injected by this program itself.
    pub injected: bool,
    /// Whether left Win and left Shift are held.
    pub lwin_down: bool,
    pub lshift_down: bool,
}

/// What the hook does with a key.
#[derive(Debug, Clone, Copy, PartialEq, Eq, Structural)]
pub enum HookVerdict {
    /// Hand the key to the next hook.
    PassThrough,
    /// Swallow the key.
    Suppress,
    /// Swallow the key and press the remap target.
    RemapDown { vk: u32, extended: bool },
    /// Swallow the key and release the remap target.
    RemapUp { vk: u32, extended: bool },
}

/// The remap bound to the Copilot key, when it is active.
pub open spec fn copilot_remap(config: Option<HotkeyMap>) -> Option<(u32, bool)> {
    match config {
        Some(m) => match active_action(m.copilot_key) {
            Some(HotkeyAction::RemapToKey { vk, extended }) => Some((vk, extended)),
            _ => None,
        },
        None => None,
    }
}

pub open spec fn idle_tracking() -> RemapTracking {
    RemapTracking { source_vk: 0, target_vk: 0, target_extended: false }
}

/// One step of the keyboard hook. Injected keys pass. A key-down offers a
/// non-modifier key to detect mode and passes while detect mode runs. The
/// release of the key being remapped releases its target. The Copilot key,
/// or F23 with LWin and LShift held, starts its remap when one is bound;
/// the Xiaomi keys and keys with an active binding are swallowed.
pub open spec fn hook_step(detect: RemapState, t: RemapTracking, config: Option<HotkeyMap>, k: HookKey) -> (RemapState, RemapTracking, HookVerdict) {
    if k.injected {
        (detect, t, HookVerdict::PassThrough)
    } else {
        let d = if k.keydown && !is_modifier(k.vk) {
            captured(detect, k.vk)
        } else {
            detect
        };
        if k.keydown && d is AwaitingKey {
            (d, t, HookVerdict::PassThrough)
        } else if k.keyup && t.source_vk != 0 && k.vk == t.source_vk {
            (d, idle_tracking(), HookVerdict::RemapUp { vk: t.target_vk, extended: t.target_extended })
        } else if !k.keydown {
            (d, t, HookVerdict::PassThrough)
        } else if k.vk == VK_COPILOT && copilot_remap(config) is Some {
            let (v, e) = copilot_remap(config).unwrap();
            (
                d,
                RemapTracking { source_vk: VK_COPILOT, target_vk: v, target_extended: e },
                HookVerdict::RemapDown { vk: v, extended: e },
            )
        } else if k.vk == VK_F23 && k.lwin_down && k.lshift_down && copilot_remap(config) is Some {
            let (v, e) = copilot_remap(config).unwrap();
            (
                d,
                RemapTracking { source_vk: VK_F23, target_vk: v, target_extended: e },
                HookVerdict::RemapDown { vk: v, extended: e },
            )
        } else if k.vk == VK_AI_KEY || k.vk == VK_XIAOMI_KEY || k.vk == VK_COPILOT {
            (d, t, HookVerdict::Suppress)
        } else if match config {
            Some(m) => match binding_for(m, k.vk) {
                Some(b) => active_action(b) is Some,
                None => false,
            },
            None => false,
        } {
            (d, t, HookVerdict::Suppress)
        } else {
            (d, t, HookVerdict::PassThrough)
        }
    }
}

fn copilot_remap_exec(config: &Option<HotkeyMap>) -> (r: Option<(u32, bool)>)
    ensures
        r == copilot_remap(*config),
{
    match config {
        Some(m) => {
            if m.copilot_key.enabled {
                match &m.copilot_key.action {
                    HotkeyAction::RemapToKey { vk, extended } => Some((*vk, *extended)),
                    _ => None,
                }
            } else {
                None
            }
        },
        None => None,
    }
}

/// The keyboard hook's decision for one key event.
pub fn keyboard_hook_proc(
    detect: &mut RemapState,
    tracking: &mut RemapTracking,
    config: &Option<HotkeyMap>,
    key: HookKey,
) -> (v: HookVerdict)
    ensures
        (*final(detect), *final(tracking), v) == hook_step(*old(detect), *old(tracking), *config, key),
{
    if key.injected {
        return HookVerdict::PassThrough;
    }
    if key.keydown && !((0x10 <= key.vk && key.vk <= 0x12) || key.vk == 0x14 || key.vk == 0x5B
        || key.vk == 0x5C || (0xA0 <= key.vk && key.vk <= 0xA5)) {
        capture_key(detect, key.vk);
    }
    if key.keydown {
        if let RemapState::AwaitingKey { .. } = *detect {
            return HookVerdict::PassThrough;
        }
    }
    if key.keyup && tracking.source_vk != 0 && key.vk == tracking.source_vk {
        let up = HookVerdict::RemapUp { vk: tracking.target_vk, extended: tracking.target_extended };
        *tracking = RemapTracking { source_vk: 0, target_vk: 0, target_extended: false };
        return up;
    }
    if !key.keydown {
        return HookVerdict::PassThrough;
    }
    let remap = copilot_remap_exec(config);
    if key.vk == VK_COPILOT {
        if let Some((v, e)) = remap {
            *tracking = RemapTracking { source_vk: VK_COPILOT, target_vk: v, target_extended: e };
            return HookVerdict::RemapDown { vk: v, extended: e };
        }
    }
    if key.vk == VK_F23 && key.lwin_down && key.lshift_down {
        if let Some((v, e)) = remap {
            *tracking = RemapTracking { source_vk: VK_F23, target_vk: v, target_extended: e };
            return HookVerdict::RemapDown { vk: v, extended: e };
        }
    }
    if key.vk == VK_AI_KEY || key.vk == VK_XIAOMI_KEY || key.vk == VK_COPILOT {
        return HookVerdict::Suppress;
    }
    if resolve_action(config, key.vk).is_some() {
        return HookVerdict::Suppress;
    }
    HookVerdict::PassThrough
}

/// A remapped Copilot key is released as it was pressed: after its
/// key-down starts the remap, its key-up releases the same target and ends
/// the remap.
pub proof fn law_remap_press_then_release(config: Option<HotkeyMap>, down: HookKey, up: HookKey)
    requires
        copilot_remap(config) is Some,
        down.vk == VK_COPILOT && down.keydown && !down.keyup && !down.injected,
        up.vk == VK_COPILOT && up.keyup && !up.keydown && !up.injected,
    ensures
        ({
            let (d1, t1, v1) = hook_step(RemapState::Idle, idle_tracking(), config, down);
            let (d2, t2, v2) = hook_step(d1, t1, config, up);
            &&& v1 == HookVerdict::RemapDown {
                vk: copilot_remap(config).unwrap().0,
                extended: copilot_remap(config).unwrap().1,
            }
            &&& v2 == HookVerdict::RemapUp {
                vk: copilot_remap(config).unwrap().0,
                extended: copilot_remap(config).unwrap().1,
            }
            &&& t2 == idle_tracking()
        }),
{
}

/// Keys this program injected itself are never touched.
pub proof fn law_injected_keys_pass(detect: RemapState, t: RemapTracking, config: Option<HotkeyMap>, k: HookKey)
    requires
        k.injected,
    ensures
        hook_step(detect, t, config, k) == (detect, t, HookVerdict::PassThrough),
{
}

// ── Synthetic key strokes ───────────────────────────────────────────────────

/// One synthetic key event.
#[derive(Debug, Clone, Copy, PartialEq, Eq, Structural)]
pub struct KeyStroke {
    pub vk: u16,
    pub up: bool,
    pub extended: bool,
}

pub open spec fn stroke(vk: u16, up: bool) -> KeyStroke {
    KeyStroke { vk, up, extended: false }
}

/// `KEYEVENTF_*` flags of a stroke: 2 for a release, 1 for an extended key.
pub fn keyevent_flags(up: bool, extended: bool) -> (f: u32)
    ensures
        f == (if up {
            2u32
        } else {
            0u32
        }) + (if extended {
            1u32
        } else {
            0u32
        }),
{
    let mut f: u32 = 0;
    if up {
        f = f + 2;
    }
    if extended {
        f = f + 1;
    }
    f
}

pub open spec fn releases(mods: Seq<u16>) -> Seq<KeyStroke>
    decreases mods.len(),
{
    if mods.len() == 0 {
        seq![]
    } else {
        seq![stroke(mods.last(), true)] + releases(mods.drop_last())
    }
}

/// A key pressed with modifiers: the modifiers go down in order, the key
/// is tapped, and the modifiers come up in reverse order.
pub open spec fn combo_of(mods: Seq<u16>, key: u16) -> Seq<KeyStroke> {
    mods.map_values(|m: u16| stroke(m, false)) + seq![stroke(key, false), stroke(key, true)]
        + releases(mods)
}

pub fn key_combo(modifiers: &Vec<u16>, key: u16) -> (r: Vec<KeyStroke>)
    ensures
        r@ == combo_of(modifiers@, key),
{
    let mut r: Vec<KeyStroke> = Vec::new();
    let mut i: usize = 0;
    while i < modifiers.len()
        invariant
            i <= modifiers.len(),
            r@ == modifiers@.take(i as int).map_values(|m: u16| stroke(m, false)),
        decreases modifiers.len() - i,
    {
        let ghost before = r@;
        r.push(KeyStroke { vk: modifiers[i], up: false, extended: false });
        assert(modifiers@.take(i as int + 1).map_values(|m: u16| stroke(m, false)) =~= before.push(
            stroke(modifiers@[i as int], false),
        ));
        i += 1;
    }
    assert(modifiers@.take(modifiers.len() as int) == modifiers@);
    r.push(KeyStroke { vk: key, up: false, extended: false });
    r.push(KeyStroke { vk: key, up: true, extended: false });
    let ghost head = r@;
    let ghost mut pushed: Seq<KeyStroke> = seq![];
    let mut j: usize = modifiers.len();
    assert(pushed + releases(modifiers@.take(j as int)) =~= releases(modifiers@));
    while j > 0
        invariant
            j <= modifiers.len(),
            r@ == head + pushed,
            pushed + releases(modifiers@.take(j as int)) == releases(modifiers@),
        decreases j,
    {
        assert(modifiers@.take(j as int).drop_last() == modifiers@.take(j - 1));
        assert(modifiers@.take(j as int).last() == modifiers@[j - 1]);
        r.push(KeyStroke { vk: modifiers[j - 1], up: true, extended: false });
        proof {
            assert(releases(modifiers@.take(j as int)) == seq![stroke(modifiers@[j - 1], true)]
                + releases(modifiers@.take(j - 1)));
            pushed = pushed.push(stroke(modifiers@[j - 1], true));
            assert(pushed + releases(modifiers@.take(j - 1)) =~= releases(modifiers@));
        }
        j -= 1;
    }
    assert(modifiers@.take(0) =~= Seq::<u16>::empty());
    assert(r@ =~= combo_of(modifiers@, key));
    r
}

proof fn lemma_releases(mods: Seq<u16>)
    ensures
        releases(mods).len() == mods.len(),
        forall|k: int|
            0 <= k < mods.len() ==> #[trigger] releases(mods)[k] == stroke(mods[mods.len() - 1 - k], true),
    decreases mods.len(),
{
    if mods.len() > 0 {
        lemma_releases(mods.drop_last());
        assert forall|k: int| 0 <= k < mods.len() implies #[trigger] releases(mods)[k] == stroke(
            mods[mods.len() - 1 - k],
            true,
        ) by {
            if k > 0 {
                assert(releases(mods)[k] == releases(mods.drop_last())[k - 1]);
            }
        }
    }
}

/// In a key combination every modifier pressed is released, the last one
/// pressed first, after the key itself was pressed and released.
pub proof fn law_combo_releases_what_it_presses(mods: Seq<u16>, key: u16)
    ensures
        combo_of(mods, key).len() == 2 * mods.len() + 2,
        forall|i: int|
            0 <= i < mods.len() ==> combo_of(mods, key)[i] == stroke(mods[i], false) && combo_of(
                mods,
                key,
            )[2 * mods.len() + 1 - i] == stroke(mods[i], true),
        combo_of(mods, key)[mods.len() as int] == stroke(key, false),
        combo_of(mods, key)[mods.len() + 1 as int] == stroke(key, true),
{
    lemma_releases(mods);
    let n = mods.len() as int;
    assert forall|i: int| 0 <= i < n implies combo_of(mods, key)[i] == stroke(mods[i], false)
        && combo_of(mods, key)[2 * n + 1 - i] == stroke(mods[i], true) by {
        assert(combo_of(mods, key)[2 * n + 1 - i] == releases(mods)[n - 1 - i]);
    }
}

/// The strokes that start a remap: release left Shift and left Win when
/// they are held (they come with the Copilot key), then press the target.
pub fn remap_keydown_strokes(lshift_held: bool, lwin_held: bool, target: u32, extended: bool) -> (r: Vec<KeyStroke>)
    ensures
        r@ == (if lshift_held {
            seq![KeyStroke { vk: 0xA0, up: true, extended: false }]
        } else {
            seq![]
        }) + (if lwin_held {
            seq![KeyStroke { vk: 0x5B, up: true, extended: true }]
        } else {
            seq![]
        }) + seq![KeyStroke { vk: target as u16, up: false, extended }],
{
    let mut r: Vec<KeyStroke> = Vec::new();
    if lshift_held {
        r.push(KeyStroke { vk: 0xA0, up: true, extended: false });
    }
    if lwin_held {
        r.push(KeyStroke { vk: 0x5B, up: true, extended: true });
    }
    r.push(KeyStroke { vk: target as u16, up: false, extended });
    assert(r@ =~= (if lshift_held {
        seq![KeyStroke { vk: 0xA0, up: true, extended: false }]
    } else {
        seq![]
    }) + (if lwin_held {
        seq![KeyStroke { vk: 0x5B, up: true, extended: true }]
    } else {
        seq![]
    }) + seq![KeyStroke { vk: target as u16, up: false, extended }]);
    r
}

/// The stroke that ends a remap: the target released.
pub fn remap_keyup_stroke(target: u32, extended: bool) -> (k: KeyStroke)
    ensures
        k == (KeyStroke { vk: target as u16, up: true, extended }),
{
    KeyStroke { vk: target as u16, up: true, extended }
}

// ── Granting consent ────────────────────────────────────────────────────────

/// Whether `serde_json` parses `content` as a JSON value.
pub uninterp spec fn json_parses(content: Seq<char>) -> bool;

/// `serde_json::from_str::<serde_json::Value>` succeeds on `content`.
#[verifier::external_body]
fn json_valid(content: &str) -> (r: bool)
    ensures
        r == json_parses(content@),
{
    serde_json::from_str::<serde_json::Value>(content).is_ok()
}

/// Whether `serde_json` parses `content` as a JSON object.
pub uninterp spec fn json_object(content: Seq<char>) -> bool;

/// `serde_json::from_str::<serde_json::Value>` on `content` gives an
/// `Object`. An object parses; `{}` is one.
#[verifier::external_body]
fn json_is_object(content: &str) -> (r: bool)
    ensures
        r == json_object(content@),
        r ==> json_parses(content@),
        content@ == seq!['{', '}'] ==> r,
{
    matches!(serde_json::from_str::<serde_json::Value>(content), Ok(serde_json::Value::Object(_)))
}

/// The pretty-printed text of the JSON object `content` with the member
/// `key` set to the boolean `value`.
pub uninterp spec fn json_with_member(content: Seq<char>, key: Seq<char>, value: bool) -> Seq<char>;

/// `serde_json::from_str` of an object, `Map::insert(key, Value::Bool(value))`
/// and `to_string_pretty`, which does not fail on a `Value` (its writer is a
/// `Vec` and every map key is a string). The member reads back as `value`.
#[verifier::external_body]
fn json_insert_bool(content: &str, key: &str, value: bool) -> (r: String)
    requires
        json_object(content@),
    ensures
        r@ == json_with_member(content@, key@, value),
        json_bool_member(r@, key@) == Some(value),
{
    let mut v: serde_json::Value = serde_json::from_str(content).unwrap_or_default();
    if let serde_json::Value::Object(m) = &mut v {
        m.insert(key.to_string(), serde_json::Value::Bool(value));
    }
    serde_json::to_string_pretty(&v).unwrap_or_default()
}

/// The pretty-printed text of the JSON value `content`.
pub uninterp spec fn json_pretty_text(content: Seq<char>) -> Seq<char>;

/// `serde_json::from_str::<serde_json::Value>` then `to_string_pretty`,
/// which does not fail on a `Value`.
#[verifier::external_body]
fn json_pretty(content: &str) -> (r: String)
    requires
        json_parses(content@),
    ensures
        r@ == json_pretty_text(content@),
{
    serde_json::from_str::<serde_json::Value>(content)
        .and_then(|v| serde_json::to_string_pretty(&v))
        .unwrap_or_default()
}

/// The consent file's text once `key` is granted, starting from the text
/// `base`: an object gets the member set to `true`; any other JSON value is
/// printed again unchanged.
pub open spec fn consent_text(base: Seq<char>, key: Seq<char>) -> Seq<char> {
    if json_object(base) {
        json_with_member(base, key, true)
    } else {
        json_pretty_text(base)
    }
}

/// The text a consent update starts from: the file's text when it was read
/// and parses as JSON, else an empty object.
pub open spec fn consent_base(existing: Option<Seq<char>>) -> Seq<char> {
    match existing {
        Some(c) => if json_parses(c) {
            c
        } else {
            "{}"@
        },
        None => "{}"@,
    }
}

pub open spec fn opt_text(o: Option<String>) -> Option<Seq<char>> {
    match o {
        Some(s) => Some(s@),
        None => None,
    }
}

/// Whether consent is recorded for the script in the consent file's text.
pub open spec fn consented(interpreter: Seq<char>, path: Seq<char>, args: Seq<Seq<char>>, content: Option<Seq<char>>) -> bool {
    match content {
        None => false,
        Some(c) => json_bool_member(c, hex_lower(sha256(script_id_bytes(interpreter, path, args))))
            == Some(true),
    }
}

/// The consent file's new text after "Always Allow" was granted to the
/// script (`existing`: its current text, if it could be read; an absent or
/// unparsable file counts as an empty object). Once written, the script
/// counts as consented whenever the file held an object or no JSON at all.
pub fn grant_consent(interpreter: &str, path: &str, args: &Vec<String>, existing: &Option<String>) -> (r: Result<String, String>)
    ensures
        r is Ok,
        r matches Ok(t) ==> t@ == consent_text(
            consent_base(opt_text(*existing)),
            hex_lower(sha256(script_id_bytes(interpreter@, path@, strings_view(args@)))),
        ),
        r matches Ok(t) ==> (json_object(consent_base(opt_text(*existing))) ==> consented(
            interpreter@,
            path@,
            strings_view(args@),
            Some(t@),
        )),
        r matches Ok(t) ==> (!(opt_text(*existing) matches Some(c) && json_parses(c)) ==> consented(
            interpreter@,
            path@,
            strings_view(args@),
            Some(t@),
        )),
{
    let hash = script_hash(interpreter, path, args);
    let base: String = match existing {
        Some(c) => if json_valid(c.as_str()) {
            owned(c.as_str())
        } else {
            owned("{}")
        },
        None => owned("{}"),
    };
    proof {
        reveal_strlit("{}");
        assert("{}"@ =~= seq!['{', '}']);
    }
    assert(base@ == consent_base(opt_text(*existing)));
    if json_is_object(base.as_str()) {
        Ok(json_insert_bool(base.as_str(), hash.as_str(), true))
    } else if json_valid(base.as_str()) {
        Ok(json_pretty(base.as_str()))
    } else {
        Err(owned("consent base does not parse"))
    }
}

} // verus!
