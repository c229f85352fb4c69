//! System optimisation: the curated list of reversible Windows tweaks, their
//! risk tiers, which handler a tweak id selects, the registry values each
//! handler writes, and the guard that keeps protected Appx packages out of
//! every removal.
use vstd::prelude::*;
use crate::errors::HardwareError;
use crate::iotservice::{decimal, decimal_u64};
use crate::localsend::{char_views, split_words, words};
use crate::text::{
    append_str, ascii_lower, chars_eq, chars_of, contains_str, find_seq, lower_seq, occurs_at_exec, owned,
    starts_with_seq, str_is, string_of, to_lowercase, unicode_lower,
};

verus! {

/// One optimisation toggle.
#[derive(Debug, Clone, Copy)]
pub struct SysOptTweak {
    /// Stable identifier, also the registry sub-key of its state.
    pub id: &'static str,
    /// Key suffix of the title shown to the user.
    pub title: &'static str,
    pub desc: &'static str,
    /// Relative impact score, 1 to 5.
    pub impact: u8,
}

pub open spec fn tw(id: &'static str, title: &'static str, desc: &'static str, impact: u8) -> SysOptTweak {
    SysOptTweak { id, title, desc, impact }
}

/// The curated tweak list, in display order.
pub open spec fn tweak_table() -> Seq<SysOptTweak> {
    seq![
        tw("telemetry_level", "telemetry", "telemetryDesc", 5),
        tw("diagtrack_service", "diagTrack", "diagTrackDesc", 4),
        tw("ceip_tasks", "ceipTasks", "ceipTasksDesc", 5),
        tw("compat_appraiser", "compatAppraiser", "compatAppraiserDesc", 5),
        tw("advertising_id", "advertisingId", "advertisingIdDesc", 2),
        tw("tailored_experiences", "tailored", "tailoredDesc", 2),
        tw("activity_history", "activityHistory", "activityHistoryDesc", 3),
        tw("feedback_requests", "feedback", "feedbackDesc", 2),
        tw("web_search_start", "webSearch", "webSearchDesc", 3),
        tw("consumer_features", "consumerFeatures", "consumerFeaturesDesc", 3),
        tw("delivery_opt_upload", "deliveryOpt", "deliveryOptDesc", 3),
        tw("background_apps", "backgroundApps", "backgroundAppsDesc", 4),
        tw("appx_bing_games", "appxBingGames", "appxBingGamesDesc", 3),
        tw("appx_office_media", "appxOfficeMedia", "appxOfficeMediaDesc", 3),
        tw("appx_misc_tools", "appxMiscTools", "appxMiscToolsDesc", 2),
        tw("appx_xbox", "appxXbox", "appxXboxDesc", 2),
        tw("onedrive_uninstall", "onedrive", "onedriveDesc", 3),
        tw("services_unused", "servicesUnused", "servicesUnusedDesc", 3),
        tw("red_copilot", "redCopilot", "redCopilotDesc", 4),
        tw("red_edge_preinstall", "redEdge", "redEdgeDesc", 5),
        tw("red_widgets", "redWidgets", "redWidgetsDesc", 4),
        tw("red_cortana_relics", "redCortana", "redCortanaDesc", 4),
    ]
}

/// The curated tweak list, in display order.
pub fn tweaks() -> (v: Vec<SysOptTweak>)
    ensures
        v@ == tweak_table(),
{
    let mut v: Vec<SysOptTweak> = Vec::new();
    v.push(SysOptTweak { id: "telemetry_level", title: "telemetry", desc: "telemetryDesc", impact: 5 });
    v.push(SysOptTweak { id: "diagtrack_service", title: "diagTrack", desc: "diagTrackDesc", impact: 4 });
    v.push(SysOptTweak { id: "ceip_tasks", title: "ceipTasks", desc: "ceipTasksDesc", impact: 5 });
    v.push(SysOptTweak {
        id: "compat_appraiser",
        title: "compatAppraiser",
        desc: "compatAppraiserDesc",
        impact: 5,
    });
    v.push(SysOptTweak { id: "advertising_id", title: "advertisingId", desc: "advertisingIdDesc", impact: 2 });
    v.push(SysOptTweak { id: "tailored_experiences", title: "tailored", desc: "tailoredDesc", impact: 2 });
    v.push(SysOptTweak {
        id: "activity_history",
        title: "activityHistory",
        desc: "activityHistoryDesc",
        impact: 3,
    });
    v.push(SysOptTweak { id: "feedback_requests", title: "feedback", desc: "feedbackDesc", impact: 2 });
    v.push(SysOptTweak { id: "web_search_start", title: "webSearch", desc: "webSearchDesc", impact: 3 });
    v.push(SysOptTweak {
        id: "consumer_features",
        title: "consumerFeatures",
        desc: "consumerFeaturesDesc",
        impact: 3,
    });
    v.push(SysOptTweak { id: "delivery_opt_upload", title: "deliveryOpt", desc: "deliveryOptDesc", impact: 3 });
    v.push(SysOptTweak { id: "background_apps", title: "backgroundApps", desc: "backgroundAppsDesc", impact: 4 });
    v.push(SysOptTweak { id: "appx_bing_games", title: "appxBingGames", desc: "appxBingGamesDesc", impact: 3 });
    v.push(SysOptTweak {
        id: "appx_office_media",
        title: "appxOfficeMedia",
        desc: "appxOfficeMediaDesc",
        impact: 3,
    });
    v.push(SysOptTweak { id: "appx_misc_tools", title: "appxMiscTools", desc: "appxMiscToolsDesc", impact: 2 });
    v.push(SysOptTweak { id: "appx_xbox", title: "appxXbox", desc: "appxXboxDesc", impact: 2 });
    v.push(SysOptTweak { id: "onedrive_uninstall", title: "onedrive", desc: "onedriveDesc", impact: 3 });
    v.push(SysOptTweak { id: "services_unused", title: "servicesUnused", desc: "servicesUnusedDesc", impact: 3 });
    v.push(SysOptTweak { id: "red_copilot", title: "redCopilot", desc: "redCopilotDesc", impact: 4 });
    v.push(SysOptTweak { id: "red_edge_preinstall", title: "redEdge", desc: "redEdgeDesc", impact: 5 });
    v.push(SysOptTweak { id: "red_widgets", title: "redWidgets", desc: "redWidgetsDesc", impact: 4 });
    v.push(SysOptTweak { id: "red_cortana_relics", title: "redCortana", desc: "redCortanaDesc", impact: 4 });
    assert(v@ =~= tweak_table());
    v
}

/// Risk tier of a tweak: "red" may destabilise Windows, "yellow" may break
/// non-essential functions, everything else is "green".
pub open spec fn tier_of(id: Seq<char>) -> Seq<char> {
    if id == "red_copilot"@ || id == "red_edge_preinstall"@ || id == "red_widgets"@ || id
        == "red_cortana_relics"@ {
        "red"@
    } else if id == "appx_xbox"@ || id == "onedrive_uninstall"@ || id == "services_unused"@ || id
        == "diagtrack_service"@ {
        "yellow"@
    } else {
        "green"@
    }
}

pub fn risk_tier(id: &str) -> (t: &'static str)
    ensures
        t@ == tier_of(id@),
{
    if str_is(id, "red_copilot") || str_is(id, "red_edge_preinstall") || str_is(id, "red_widgets")
        || str_is(id, "red_cortana_relics") {
        "red"
    } else if str_is(id, "appx_xbox") || str_is(id, "onedrive_uninstall") || str_is(
        id,
        "services_unused",
    ) || str_is(id, "diagtrack_service") {
        "yellow"
    } else {
        "green"
    }
}

// ── Which handler a tweak id selects ────────────────────────────────────────

/// The handler that applies or restores a tweak.
#[derive(Debug, Clone, Copy, PartialEq, Eq, Structural)]
pub enum TweakAction {
    /// AllowTelemetry in the policy key and its mirror.
    Telemetry,
    /// The DiagTrack service's Start value, then `sc stop|start`.
    DiagTrack,
    /// The CEIP and diagnostics scheduled tasks.
    CeipTasks,
    /// The Compatibility Appraiser task alone.
    CompatAppraiser,
    AdvertisingId,
    TailoredExperiences,
    /// The activity feed value plus PublishUserActivities and UploadUserActivities.
    ActivityHistory,
    FeedbackRequests,
    /// Search box suggestions and Bing search in Start.
    WebSearch,
    ConsumerFeatures,
    DeliveryOptimization,
    BackgroundApps,
    /// Remove or reinstall one group of Appx packages.
    AppxGroup,
    OneDrive,
    UnusedServices,
    Copilot,
    EdgePrelaunch,
    Widgets,
    CortanaRelics,
}

/// The handler of a tweak id; every id beginning with `appx_` names an Appx
/// group.
pub open spec fn action_of(id: Seq<char>) -> Option<TweakAction> {
    if id == "telemetry_level"@ {
        Some(TweakAction::Telemetry)
    } else if id == "diagtrack_service"@ {
        Some(TweakAction::DiagTrack)
    } else if id == "ceip_tasks"@ {
        Some(TweakAction::CeipTasks)
    } else if id == "compat_appraiser"@ {
        Some(TweakAction::CompatAppraiser)
    } else if id == "advertising_id"@ {
        Some(TweakAction::AdvertisingId)
    } else if id == "tailored_experiences"@ {
        Some(TweakAction::TailoredExperiences)
    } else if id == "activity_history"@ {
        Some(TweakAction::ActivityHistory)
    } else if id == "feedback_requests"@ {
        Some(TweakAction::FeedbackRequests)
    } else if id == "web_search_start"@ {
        Some(TweakAction::WebSearch)
    } else if id == "consumer_features"@ {
        Some(TweakAction::ConsumerFeatures)
    } else if id == "delivery_opt_upload"@ {
        Some(TweakAction::DeliveryOptimization)
    } else if id == "background_apps"@ {
        Some(TweakAction::BackgroundApps)
    } else if starts_with_seq(id, "appx_"@) {
        Some(TweakAction::AppxGroup)
    } else if id == "onedrive_uninstall"@ {
        Some(TweakAction::OneDrive)
    } else if id == "services_unused"@ {
        Some(TweakAction::UnusedServices)
    } else if id == "red_copilot"@ {
        Some(TweakAction::Copilot)
    } else if id == "red_edge_preinstall"@ {
        Some(TweakAction::EdgePrelaunch)
    } else if id == "red_widgets"@ {
        Some(TweakAction::Widgets)
    } else if id == "red_cortana_relics"@ {
        Some(TweakAction::CortanaRelics)
    } else {
        None
    }
}

fn action_named(id: &str) -> (a: Option<TweakAction>)
    ensures
        a == action_of(id@),
{
    if str_is(id, "telemetry_level") {
        Some(TweakAction::Telemetry)
    } else if str_is(id, "diagtrack_service") {
        Some(TweakAction::DiagTrack)
    } else if str_is(id, "ceip_tasks") {
        Some(TweakAction::CeipTasks)
    } else if str_is(id, "compat_appraiser") {
        Some(TweakAction::CompatAppraiser)
    } else if str_is(id, "advertising_id") {
        Some(TweakAction::AdvertisingId)
    } else if str_is(id, "tailored_experiences") {
        Some(TweakAction::TailoredExperiences)
    } else if str_is(id, "activity_history") {
        Some(TweakAction::ActivityHistory)
    } else if str_is(id, "feedback_requests") {
        Some(TweakAction::FeedbackRequests)
    } else if str_is(id, "web_search_start") {
        Some(TweakAction::WebSearch)
    } else if str_is(id, "consumer_features") {
        Some(TweakAction::ConsumerFeatures)
    } else if str_is(id, "delivery_opt_upload") {
        Some(TweakAction::DeliveryOptimization)
    } else if str_is(id, "background_apps") {
        Some(TweakAction::BackgroundApps)
    } else if occurs_at_exec(&chars_of(id), &chars_of("appx_"), 0) {
        Some(TweakAction::AppxGroup)
    } else if str_is(id, "onedrive_uninstall") {
        Some(TweakAction::OneDrive)
    } else if str_is(id, "services_unused") {
        Some(TweakAction::UnusedServices)
    } else if str_is(id, "red_copilot") {
        Some(TweakAction::Copilot)
    } else if str_is(id, "red_edge_preinstall") {
        Some(TweakAction::EdgePrelaunch)
    } else if str_is(id, "red_widgets") {
        Some(TweakAction::Widgets)
    } else if str_is(id, "red_cortana_relics") {
        Some(TweakAction::CortanaRelics)
    } else {
        None
    }
}

fn other_error(prefix: &str, id: &str) -> (e: HardwareError)
    ensures
        e matches HardwareError::Other(m) && m@ == prefix@ + id@,
{
    let mut v = chars_of(prefix);
    append_str(&mut v, id);
    HardwareError::Other(string_of(&v))
}

/// The handler that applying or restoring tweak `id` runs. Off Windows
/// nothing can be changed; an id outside the list is an error, and so is an
/// `appx_` id that names no Appx group.
pub fn plan_tweak(id: &str, on_windows: bool) -> (r: Result<TweakAction, HardwareError>)
    ensures
        !on_windows ==> (r matches Err(HardwareError::NotSupported(m)) && m@
            == "System optimization only available on Windows"@),
        on_windows ==> match action_of(id@) {
            Some(TweakAction::AppxGroup) => if appx_group_of(id@) is Some {
                r == Ok::<TweakAction, HardwareError>(TweakAction::AppxGroup)
            } else {
                r matches Err(HardwareError::Other(m)) && m@ == "Unknown appx group: "@ + id@
            },
            Some(a) => r == Ok::<TweakAction, HardwareError>(a),
            None => r matches Err(HardwareError::Other(m)) && m@ == "Unknown SysOpt tweak: "@
                + id@,
        },
{
    if !on_windows {
        return Err(HardwareError::NotSupported(owned("System optimization only available on Windows")));
    }
    match action_named(id) {
        Some(TweakAction::AppxGroup) => {
            if appx_group(id).is_some() {
                Ok(TweakAction::AppxGroup)
            } else {
                Err(other_error("Unknown appx group: ", id))
            }
        },
        Some(a) => Ok(a),
        None => Err(other_error("Unknown SysOpt tweak: ", id)),
    }
}

// ── Appx groups and the protected list ──────────────────────────────────────

/// Packages that are never removed: the Store, Settings, the app runtime
/// frameworks and the WebView2 host among them.
pub open spec fn protected_table() -> Seq<&'static str> {
    seq![
        "Microsoft.WindowsStore",
        "Microsoft.StorePurchaseApp",
        "Microsoft.SecHealthUI",
        "Microsoft.VCLibs",
        "Microsoft.UI.Xaml",
        "Microsoft.NET.Native",
        "Microsoft.WindowsAppRuntime",
        "Microsoft.WindowsAppSDK",
        "Microsoft.Windows.Photos",
        "Microsoft.WindowsCalculator",
        "Microsoft.WindowsNotepad",
        "Microsoft.WindowsTerminal",
        "Microsoft.DesktopAppInstaller",
        "Microsoft.WindowsSecurityHealth",
        "Microsoft.XboxGamingOverlay",
        "Microsoft.Windows.ShellExperienceHost",
        "Microsoft.Windows.StartMenuExperienceHost",
        "MicrosoftWindows.Client",
        "Microsoft.Windows.ContentDeliveryManager",
    ]
}

fn protected_list() -> (v: Vec<&'static str>)
    ensures
        v@ == protected_table(),
{
    let v: Vec<&'static str> = vec![
        "Microsoft.WindowsStore",
        "Microsoft.StorePurchaseApp",
        "Microsoft.SecHealthUI",
        "Microsoft.VCLibs",
        "Microsoft.UI.Xaml",
        "Microsoft.NET.Native",
        "Microsoft.WindowsAppRuntime",
        "Microsoft.WindowsAppSDK",
        "Microsoft.Windows.Photos",
        "Microsoft.WindowsCalculator",
        "Microsoft.WindowsNotepad",
        "Microsoft.WindowsTerminal",
        "Microsoft.DesktopAppInstaller",
        "Microsoft.WindowsSecurityHealth",
        "Microsoft.XboxGamingOverlay",
        "Microsoft.Windows.ShellExperienceHost",
        "Microsoft.Windows.StartMenuExperienceHost",
        "MicrosoftWindows.Client",
        "Microsoft.Windows.ContentDeliveryManager",
    ];
    assert(v@ =~= protected_table());
    v
}

/// The packages of each Appx group, by group id.
pub open spec fn appx_group_of(id: Seq<char>) -> Option<Seq<&'static str>> {
    if id == "appx_bing_games"@ {
        Some(
            seq![
                "Microsoft.BingNews",
                "Microsoft.BingWeather",
                "Microsoft.BingSearch",
                "Microsoft.GamingApp",
                "Microsoft.MicrosoftSolitaireCollection",
            ],
        )
    } else if id == "appx_office_media"@ {
        Some(
            seq![
                "Microsoft.MicrosoftOfficeHub",
                "Microsoft.Office.OneNote",
                "Microsoft.OutlookForWindows",
                "Microsoft.Todos",
                "Microsoft.ZuneMusic",
                "Microsoft.ZuneVideo",
            ],
        )
    } else if id == "appx_misc_tools"@ {
        Some(
            seq![
                "Microsoft.GetHelp",
                "Microsoft.Getstarted",
                "Microsoft.WindowsFeedbackHub",
                "Microsoft.WindowsMaps",
                "Microsoft.People",
                "Microsoft.MicrosoftStickyNotes",
                "Microsoft.WindowsSoundRecorder",
                "Microsoft.Wallet",
                "Clipchamp.Clipchamp",
                "Microsoft.MixedReality.Portal",
                "Microsoft.Microsoft3DViewer",
                "Microsoft.PowerAutomateDesktop",
                "MicrosoftCorporationII.QuickAssist",
                "MicrosoftCorporationII.MicrosoftFamily",
                "AppUp.IntelManagementandSecurityStatus",
            ],
        )
    } else if id == "appx_xbox"@ {
        Some(
            seq![
                "Microsoft.Xbox.TCUI",
                "Microsoft.XboxApp",
                "Microsoft.XboxIdentityProvider",
                "Microsoft.XboxSpeechToTextOverlay",
            ],
        )
    } else {
        None
    }
}

/// The packages of an Appx group.
pub fn appx_group(id: &str) -> (r: Option<Vec<&'static str>>)
    ensures
        match appx_group_of(id@) {
            Some(g) => r is Some && r.unwrap()@ == g,
            None => r is None,
        },
{
    if str_is(id, "appx_bing_games") {
        let v: Vec<&'static str> = vec![
            "Microsoft.BingNews",
            "Microsoft.BingWeather",
            "Microsoft.BingSearch",
            "Microsoft.GamingApp",
            "Microsoft.MicrosoftSolitaireCollection",
        ];
        assert(v@ =~= appx_group_of(id@).unwrap());
        Some(v)
    } else if str_is(id, "appx_office_media") {
        let v: Vec<&'static str> = vec![
            "Microsoft.MicrosoftOfficeHub",
            "Microsoft.Office.OneNote",
            "Microsoft.OutlookForWindows",
            "Microsoft.Todos",
            "Microsoft.ZuneMusic",
            "Microsoft.ZuneVideo",
        ];
        assert(v@ =~= appx_group_of(id@).unwrap());
        Some(v)
    } else if str_is(id, "appx_misc_tools") {
        let v: Vec<&'static str> = vec![
            "Microsoft.GetHelp",
            "Microsoft.Getstarted",
            "Microsoft.WindowsFeedbackHub",
            "Microsoft.WindowsMaps",
            "Microsoft.People",
            "Microsoft.MicrosoftStickyNotes",
            "Microsoft.WindowsSoundRecorder",
            "Microsoft.Wallet",
            "Clipchamp.Clipchamp",
            "Microsoft.MixedReality.Portal",
            "Microsoft.Microsoft3DViewer",
            "Microsoft.PowerAutomateDesktop",
            "MicrosoftCorporationII.QuickAssist",
            "MicrosoftCorporationII.MicrosoftFamily",
            "AppUp.IntelManagementandSecurityStatus",
        ];
        assert(v@ =~= appx_group_of(id@).unwrap());
        Some(v)
    } else if str_is(id, "appx_xbox") {
        let v: Vec<&'static str> = vec![
            "Microsoft.Xbox.TCUI",
            "Microsoft.XboxApp",
            "Microsoft.XboxIdentityProvider",
            "Microsoft.XboxSpeechToTextOverlay",
        ];
        assert(v@ =~= appx_group_of(id@).unwrap());
        Some(v)
    } else {
        None
    }
}

/// A package is protected when its ASCII lower-cased name begins with the
/// lower-cased name of a protected package (full names carry version and
/// architecture suffixes).
pub open spec fn is_protected(name: Seq<char>) -> bool {
    exists|i: int|
        0 <= i < protected_table().len() && #[trigger] starts_with_seq(
            lower_seq(name),
            lower_seq(protected_table()[i]@),
        )
}

pub fn is_protected_appx(full_name: &str) -> (r: bool)
    ensures
        r == is_protected(full_name@),
{
    let lower = ascii_lower(&chars_of(full_name));
    let list = protected_list();
    let mut i: usize = 0;
    while i < list.len()
        invariant
            i <= list.len(),
            list@ == protected_table(),
            lower@ == lower_seq(full_name@),
            forall|k: int|
                0 <= k < i ==> !#[trigger] starts_with_seq(
                    lower_seq(full_name@),
                    lower_seq(protected_table()[k]@),
                ),
        decreases list.len() - i,
    {
        let p = ascii_lower(&chars_of(list[i]));
        if occurs_at_exec(&lower, &p, 0) {
            assert(starts_with_seq(lower_seq(full_name@), lower_seq(protected_table()[i as int]@)));
            return true;
        }
        i += 1;
    }
    false
}

/// The packages of `s` that are not protected, in order.
pub open spec fn unprotected(s: Seq<&'static str>) -> Seq<&'static str>
    decreases s.len(),
{
    if s.len() == 0 {
        s
    } else {
        let r = unprotected(s.drop_last());
        if is_protected(s.last()@) {
            r
        } else {
            r.push(s.last())
        }
    }
}

proof fn lemma_unprotected(s: Seq<&'static str>)
    ensures
        forall|i: int|
            0 <= i < unprotected(s).len() ==> !is_protected(#[trigger] unprotected(s)[i]@)
                && s.contains(unprotected(s)[i]),
    decreases s.len(),
{
    if s.len() > 0 {
        lemma_unprotected(s.drop_last());
        let r = unprotected(s.drop_last());
        assert forall|i: int| 0 <= i < unprotected(s).len() implies !is_protected(
            #[trigger] unprotected(s)[i]@,
        ) && s.contains(unprotected(s)[i]) by {
            if i < r.len() {
                assert(!is_protected(unprotected(s.drop_last())[i]@));
                assert(s.drop_last().contains(r[i]));
                let j = choose|j: int| 0 <= j < s.drop_last().len() && s.drop_last()[j] == r[i];
                assert(s[j] == r[i]);
            } else {
                assert(s[s.len() - 1] == s.last());
            }
        }
    }
}

/// No package that a removal or reinstall touches is protected, and each
/// belongs to the group that was asked for.
pub proof fn law_protected_packages_never_targeted(id: Seq<char>)
    requires
        appx_group_of(id) is Some,
    ensures
        forall|i: int|
            0 <= i < unprotected(appx_group_of(id).unwrap()).len() ==> !is_protected(
                #[trigger] unprotected(appx_group_of(id).unwrap())[i]@,
            ) && appx_group_of(id).unwrap().contains(unprotected(appx_group_of(id).unwrap())[i]),
{
    lemma_unprotected(appx_group_of(id).unwrap());
}

/// The packages of an Appx group that a removal or reinstall acts on: the
/// group without its protected packages.
pub fn appx_targets(group_id: &str) -> (r: Result<Vec<&'static str>, HardwareError>)
    ensures
        match appx_group_of(group_id@) {
            Some(g) => r matches Ok(v) && v@ == unprotected(g),
            None => r matches Err(HardwareError::Other(m)) && m@ == "Unknown appx group: "@
                + group_id@,
        },
{
    let group = match appx_group(group_id) {
        Some(g) => g,
        None => return Err(other_error("Unknown appx group: ", group_id)),
    };
    let mut out: Vec<&'static str> = Vec::new();
    let mut i: usize = 0;
    while i < group.len()
        invariant
            i <= group.len(),
            out@ == unprotected(group@.take(i as int)),
        decreases group.len() - i,
    {
        assert(group@.take(i as int + 1).drop_last() == group@.take(i as int));
        if !is_protected_appx(group[i]) {
            out.push(group[i]);
        }
        i += 1;
    }
    assert(group@.take(group.len() as int) == group@);
    Ok(out)
}

// ── PowerShell commands for Appx packages ───────────────────────────────────

/// A text quoted for a PowerShell single-quoted string: each `'` doubled.
pub open spec fn ps_escape(s: Seq<char>) -> Seq<char>
    decreases s.len(),
{
    if s.len() == 0 {
        seq![]
    } else {
        ps_escape(s.drop_last()) + if s.last() == '\'' {
            seq!['\'', '\'']
        } else {
            seq![s.last()]
        }
    }
}

fn push_ps_escaped(v: &mut Vec<char>, s: &str)
    ensures
        final(v)@ == old(v)@ + ps_escape(s@),
{
    let cs = chars_of(s);
    let mut i: usize = 0;
    while i < cs.len()
        invariant
            i <= cs.len(),
            cs@ == s@,
            v@ == old(v)@ + ps_escape(cs@.take(i as int)),
        decreases cs.len() - i,
    {
        assert(cs@.take(i as int + 1).drop_last() == cs@.take(i as int));
        if cs[i] == '\'' {
            v.push('\'');
            v.push('\'');
        } else {
            v.push(cs[i]);
        }
        i += 1;
    }
    assert(cs@.take(cs.len() as int) == cs@);
}

fn quoted_command(before: &str, pkg: &str, after: &str) -> (r: String)
    ensures
        r@ == before@ + ps_escape(pkg@) + after@,
{
    let mut v = chars_of(before);
    push_ps_escaped(&mut v, pkg);
    append_str(&mut v, after);
    string_of(&v)
}

pub open spec fn appx_remove_script_of(pkg: Seq<char>) -> Seq<char> {
    "Get-AppxPackage -Name '"@ + ps_escape(pkg) + "' | Remove-AppxPackage -ErrorAction Stop"@
}

/// Removes the package for the current user.
pub fn appx_remove_script(pkg: &str) -> (r: String)
    ensures
        r@ == appx_remove_script_of(pkg@),
{
    quoted_command("Get-AppxPackage -Name '", pkg, "' | Remove-AppxPackage -ErrorAction Stop")
}

pub open spec fn appx_deprovision_script_of(pkg: Seq<char>) -> Seq<char> {
    "Get-AppxProvisionedPackage -Online | Where-Object DisplayName -eq '"@ + ps_escape(pkg)
        + "' | ForEach-Object { Remove-AppxProvisionedPackage -Online -PackageName $_.PackageName }"@
}

/// Removes the package from the provisioned set, so that new users do not
/// get it either.
pub fn appx_deprovision_script(pkg: &str) -> (r: String)
    ensures
        r@ == appx_deprovision_script_of(pkg@),
{
    quoted_command(
        "Get-AppxProvisionedPackage -Online | Where-Object DisplayName -eq '",
        pkg,
        "' | ForEach-Object { Remove-AppxProvisionedPackage -Online -PackageName $_.PackageName }",
    )
}

pub open spec fn appx_reinstall_script_of(pkg: Seq<char>) -> Seq<char> {
    "winget install --id '"@ + ps_escape(pkg)
        + "' --source msstore --accept-source-agreements --accept-package-agreements --silent"@
}

/// Reinstalls the package from the Store through winget.
pub fn appx_reinstall_script(pkg: &str) -> (r: String)
    ensures
        r@ == appx_reinstall_script_of(pkg@),
{
    quoted_command(
        "winget install --id '",
        pkg,
        "' --source msstore --accept-source-agreements --accept-package-agreements --silent",
    )
}

// ── Registry values ─────────────────────────────────────────────────────────

/// The registry hive of a value.
#[derive(Debug, Clone, Copy, PartialEq, Eq, Structural)]
pub enum Hive {
    LocalMachine,
    CurrentUser,
}

/// A single-DWORD tweak: `on_value` when applied, `off_value` when restored;
/// applying also records the value found there under the tweak's state key.
#[derive(Debug, Clone, Copy)]
pub struct DwordTweak {
    pub id: &'static str,
    pub path: &'static str,
    pub name: &'static str,
    pub on_value: u32,
    pub off_value: u32,
    pub hive: Hive,
}

pub open spec fn dw(
    id: &'static str,
    path: &'static str,
    name: &'static str,
    on_value: u32,
    off_value: u32,
    hive: Hive,
) -> DwordTweak {
    DwordTweak { id, path, name, on_value, off_value, hive }
}

/// The single-DWORD tweaks a handler applies, in order.
pub open spec fn dword_table(a: TweakAction) -> Seq<DwordTweak> {
    match a {
        TweakAction::AdvertisingId => seq![
            dw(
                "advertising_id",
                "Software\\Microsoft\\Windows\\CurrentVersion\\AdvertisingInfo",
                "Enabled",
                0,
                1,
                Hive::CurrentUser,
            ),
        ],
        TweakAction::TailoredExperiences => seq![
            dw(
                "tailored_experiences",
                "Software\\Microsoft\\Windows\\CurrentVersion\\Privacy",
                "TailoredExperiencesWithDiagnosticDataEnabled",
                0,
                1,
                Hive::CurrentUser,
            ),
        ],
        TweakAction::ActivityHistory => seq![
            dw(
                "activity_history",
                "SOFTWARE\\Policies\\Microsoft\\Windows\\System",
                "EnableActivityFeed",
                0,
                1,
                Hive::LocalMachine,
            ),
        ],
        TweakAction::FeedbackRequests => seq![
            dw(
                "feedback_requests",
                "Software\\Microsoft\\Siuf\\Rules",
                "NumberOfSIUFInPeriod",
                0,
                1,
                Hive::CurrentUser,
            ),
        ],
        TweakAction::WebSearch => seq![
            dw(
                "web_search_start",
                "Software\\Policies\\Microsoft\\Windows\\Explorer",
                "DisableSearchBoxSuggestions",
                1,
                0,
                Hive::CurrentUser,
            ),
            dw(
                "web_search_start_bing",
                "Software\\Microsoft\\Windows\\CurrentVersion\\Search",
                "BingSearchEnabled",
                0,
                1,
                Hive::CurrentUser,
            ),
        ],
        TweakAction::BackgroundApps => seq![
            dw(
                "background_apps",
                "Software\\Microsoft\\Windows\\CurrentVersion\\BackgroundAccessApplications",
                "GlobalUserDisabled",
                1,
                0,
                Hive::CurrentUser,
            ),
        ],
        _ => seq![],
    }
}

/// The single-DWORD tweaks a handler applies, in order.
pub fn dword_tweaks(a: TweakAction) -> (v: Vec<DwordTweak>)
    ensures
        v@ == dword_table(a),
{
    let v: Vec<DwordTweak> = match a {
        TweakAction::AdvertisingId => vec![
            DwordTweak {
                id: "advertising_id",
                path: "Software\\Microsoft\\Windows\\CurrentVersion\\AdvertisingInfo",
                name: "Enabled",
                on_value: 0,
                off_value: 1,
                hive: Hive::CurrentUser,
            },
        ],
        TweakAction::TailoredExperiences => vec![
            DwordTweak {
                id: "tailored_experiences",
                path: "Software\\Microsoft\\Windows\\CurrentVersion\\Privacy",
                name: "TailoredExperiencesWithDiagnosticDataEnabled",
                on_value: 0,
                off_value: 1,
                hive: Hive::CurrentUser,
            },
        ],
        TweakAction::ActivityHistory => vec![
            DwordTweak {
                id: "activity_history",
                path: "SOFTWARE\\Policies\\Microsoft\\Windows\\System",
                name: "EnableActivityFeed",
                on_value: 0,
                off_value: 1,
                hive: Hive::LocalMachine,
            },
        ],
        TweakAction::FeedbackRequests => vec![
            DwordTweak {
                id: "feedback_requests",
                path: "Software\\Microsoft\\Siuf\\Rules",
                name: "NumberOfSIUFInPeriod",
                on_value: 0,
                off_value: 1,
                hive: Hive::CurrentUser,
            },
        ],
        TweakAction::WebSearch => vec![
            DwordTweak {
                id: "web_search_start",
                path: "Software\\Policies\\Microsoft\\Windows\\Explorer",
                name: "DisableSearchBoxSuggestions",
                on_value: 1,
                off_value: 0,
                hive: Hive::CurrentUser,
            },
            DwordTweak {
                id: "web_search_start_bing",
                path: "Software\\Microsoft\\Windows\\CurrentVersion\\Search",
                name: "BingSearchEnabled",
                on_value: 0,
                off_value: 1,
                hive: Hive::CurrentUser,
            },
        ],
        TweakAction::BackgroundApps => vec![
            DwordTweak {
                id: "background_apps",
                path: "Software\\Microsoft\\Windows\\CurrentVersion\\BackgroundAccessApplications",
                name: "GlobalUserDisabled",
                on_value: 1,
                off_value: 0,
                hive: Hive::CurrentUser,
            },
        ],
        _ => Vec::new(),
    };
    assert(v@ =~= dword_table(a));
    v
}

/// The value a single-DWORD tweak writes.
pub fn dword_value(t: &DwordTweak, on: bool) -> (v: u32)
    ensures
        v == if on {
            t.on_value
        } else {
            t.off_value
        },
{
    if on {
        t.on_value
    } else {
        t.off_value
    }
}

/// One DWORD written under HKLM.
#[derive(Debug, Clone, Copy)]
pub struct RegWrite {
    pub path: &'static str,
    pub name: &'static str,
    pub value: u32,
}

pub open spec fn rw(path: &'static str, name: &'static str, value: u32) -> RegWrite {
    RegWrite { path, name, value }
}

pub open spec fn flag(b: bool) -> u32 {
    if b {
        1
    } else {
        0
    }
}

pub const DC_POLICIES: &'static str = "SOFTWARE\\Policies\\Microsoft\\Windows\\DataCollection";
pub const DC_POLICIES_MIRROR: &'static str =
    "SOFTWARE\\Microsoft\\Windows\\CurrentVersion\\Policies\\DataCollection";
pub const DIAGTRACK_KEY: &'static str = "SYSTEM\\CurrentControlSet\\Services\\DiagTrack";

/// The HKLM policy values a handler writes besides its single-DWORD tweaks,
/// in order, when the tweak is applied (`enabled`) or restored.
pub open spec fn policy_table(a: TweakAction, enabled: bool) -> Seq<RegWrite> {
    match a {
        TweakAction::DiagTrack => seq![
            rw(DIAGTRACK_KEY, "Start", if enabled { 4 } else { 2 }),
        ],
        TweakAction::ActivityHistory => seq![
            rw("SOFTWARE\\Policies\\Microsoft\\Windows\\System", "PublishUserActivities", flag(!enabled)),
            rw("SOFTWARE\\Policies\\Microsoft\\Windows\\System", "UploadUserActivities", flag(!enabled)),
        ],
        TweakAction::ConsumerFeatures => seq![
            rw(
                "SOFTWARE\\Policies\\Microsoft\\Windows\\CloudContent",
                "DisableWindowsConsumerFeatures",
                flag(enabled),
            ),
            rw(
                "SOFTWARE\\Policies\\Microsoft\\Windows\\CloudContent",
                "DisableThirdPartySuggestions",
                flag(enabled),
            ),
        ],
        TweakAction::DeliveryOptimization => seq![
            rw(
                "SOFTWARE\\Policies\\Microsoft\\Windows\\DeliveryOptimization",
                "DODownloadMode",
                flag(!enabled),
            ),
        ],
        TweakAction::OneDrive => seq![
            rw("SOFTWARE\\Policies\\Microsoft\\Windows\\OneDrive", "DisableFileSyncNGSC", flag(enabled)),
        ],
        TweakAction::Copilot => seq![
            rw(
                "SOFTWARE\\Policies\\Microsoft\\Windows\\WindowsCopilot",
                "TurnOffWindowsCopilot",
                flag(enabled),
            ),
        ],
        TweakAction::EdgePrelaunch => seq![
            rw("SOFTWARE\\Policies\\Microsoft\\Edge", "StartupBoostEnabled", flag(!enabled)),
            rw("SOFTWARE\\Policies\\Microsoft\\Edge", "BackgroundModeEnabled", flag(!enabled)),
            rw("SOFTWARE\\Policies\\Microsoft\\Windows\\EdgeUpdate", "AllowEdgePrelaunch", flag(enabled)),
        ],
        _ => seq![],
    }
}

fn flag_of(b: bool) -> (v: u32)
    ensures
        v == flag(b),
{
    if b {
        1
    } else {
        0
    }
}

/// The HKLM policy values a handler writes besides its single-DWORD tweaks.
pub fn policy_writes(a: TweakAction, enabled: bool) -> (v: Vec<RegWrite>)
    ensures
        v@ == policy_table(a, enabled),
{
    let on = flag_of(enabled);
    let off = flag_of(!enabled);
    let v: Vec<RegWrite> = match a {
        TweakAction::DiagTrack => vec![
            RegWrite { path: DIAGTRACK_KEY, name: "Start", value: if enabled { 4 } else { 2 } },
        ],
        TweakAction::ActivityHistory => vec![
            RegWrite {
                path: "SOFTWARE\\Policies\\Microsoft\\Windows\\System",
                name: "PublishUserActivities",
                value: off,
            },
            RegWrite {
                path: "SOFTWARE\\Policies\\Microsoft\\Windows\\System",
                name: "UploadUserActivities",
                value: off,
            },
        ],
        TweakAction::ConsumerFeatures => vec![
            RegWrite {
                path: "SOFTWARE\\Policies\\Microsoft\\Windows\\CloudContent",
                name: "DisableWindowsConsumerFeatures",
                value: on,
            },
            RegWrite {
                path: "SOFTWARE\\Policies\\Microsoft\\Windows\\CloudContent",
                name: "DisableThirdPartySuggestions",
                value: on,
            },
        ],
        TweakAction::DeliveryOptimization => vec![
            RegWrite {
                path: "SOFTWARE\\Policies\\Microsoft\\Windows\\DeliveryOptimization",
                name: "DODownloadMode",
                value: off,
            },
        ],
        TweakAction::OneDrive => vec![
            RegWrite {
                path: "SOFTWARE\\Policies\\Microsoft\\Windows\\OneDrive",
                name: "DisableFileSyncNGSC",
                value: on,
            },
        ],
        TweakAction::Copilot => vec![
            RegWrite {
                path: "SOFTWARE\\Policies\\Microsoft\\Windows\\WindowsCopilot",
                name: "TurnOffWindowsCopilot",
                value: on,
            },
        ],
        TweakAction::EdgePrelaunch => vec![
            RegWrite { path: "SOFTWARE\\Policies\\Microsoft\\Edge", name: "StartupBoostEnabled", value: off },
            RegWrite { path: "SOFTWARE\\Policies\\Microsoft\\Edge", name: "BackgroundModeEnabled", value: off },
            RegWrite {
                path: "SOFTWARE\\Policies\\Microsoft\\Windows\\EdgeUpdate",
                name: "AllowEdgePrelaunch",
                value: on,
            },
        ],
        _ => Vec::new(),
    };
    assert(v@ =~= policy_table(a, enabled));
    v
}

/// AllowTelemetry when applying: 1 (required diagnostics) for the minimal
/// level, else 3; 0 is honoured by Enterprise editions only.
pub fn telemetry_level(minimal: bool) -> (v: u32)
    ensures
        v == if minimal {
            1u32
        } else {
            3u32
        },
{
    if minimal {
        1
    } else {
        3
    }
}

/// AllowTelemetry when restoring: the recorded previous value, or the
/// Windows default 1 when none was recorded.
pub fn telemetry_restore_value(prev: Option<u32>) -> (v: u32)
    ensures
        v == match prev {
            Some(p) => p,
            None => 1u32,
        },
{
    match prev {
        Some(p) => p,
        None => 1,
    }
}

// ── Services, scheduled tasks and command lines ─────────────────────────────

/// Services that are safe to disable on a personal desktop.
pub open spec fn unused_service_table() -> Seq<&'static str> {
    seq!["dmwappushservice", "wisvc", "RetailDemo", "PhoneSvc", "MapsBroker"]
}

pub fn unused_services() -> (v: Vec<&'static str>)
    ensures
        v@ == unused_service_table(),
{
    let v: Vec<&'static str> = vec!["dmwappushservice", "wisvc", "RetailDemo", "PhoneSvc", "MapsBroker"];
    assert(v@ =~= unused_service_table());
    v
}

/// The CEIP and diagnostics scheduled tasks; they are disabled, never deleted.
pub open spec fn ceip_task_table() -> Seq<&'static str> {
    seq![
        "\\Microsoft\\Windows\\Customer Experience Improvement Program\\Consolidator",
        "\\Microsoft\\Windows\\Customer Experience Improvement Program\\UsbCeip",
        "\\Microsoft\\Windows\\Customer Experience Improvement Program\\Uploader",
        "\\Microsoft\\Windows\\Application Experience\\Microsoft Compatibility Appraiser",
        "\\Microsoft\\Windows\\Application Experience\\ProgramDataUpdater",
        "\\Microsoft\\Windows\\Autochk\\Proxy",
        "\\Microsoft\\Windows\\DiskDiagnostic\\Microsoft-Windows-DiskDiagnosticDataCollector",
        "\\Microsoft\\Windows\\Windows Error Reporting\\QueueReporting",
    ]
}

pub fn ceip_tasks() -> (v: Vec<&'static str>)
    ensures
        v@ == ceip_task_table(),
{
    let v: Vec<&'static str> = vec![
        "\\Microsoft\\Windows\\Customer Experience Improvement Program\\Consolidator",
        "\\Microsoft\\Windows\\Customer Experience Improvement Program\\UsbCeip",
        "\\Microsoft\\Windows\\Customer Experience Improvement Program\\Uploader",
        "\\Microsoft\\Windows\\Application Experience\\Microsoft Compatibility Appraiser",
        "\\Microsoft\\Windows\\Application Experience\\ProgramDataUpdater",
        "\\Microsoft\\Windows\\Autochk\\Proxy",
        "\\Microsoft\\Windows\\DiskDiagnostic\\Microsoft-Windows-DiskDiagnosticDataCollector",
        "\\Microsoft\\Windows\\Windows Error Reporting\\QueueReporting",
    ];
    assert(v@ =~= ceip_task_table());
    v
}

/// The Compatibility Appraiser task, toggled on its own.
pub const APPRAISER_TASK: &'static str =
    "\\Microsoft\\Windows\\Application Experience\\Microsoft Compatibility Appraiser";

/// The registry key of a service.
pub fn service_key(svc: &str) -> (r: String)
    ensures
        r@ == "SYSTEM\\CurrentControlSet\\Services\\"@ + svc@,
{
    let mut v = chars_of("SYSTEM\\CurrentControlSet\\Services\\");
    append_str(&mut v, svc);
    string_of(&v)
}

/// The Start value of an unused service: Disabled (4), or Manual (3), the
/// default of these services, when restored.
pub fn unused_service_start(disable: bool) -> (v: u32)
    ensures
        v == if disable {
            4u32
        } else {
            3u32
        },
{
    if disable {
        4
    } else {
        3
    }
}

pub open spec fn views(v: Seq<String>) -> Seq<Seq<char>> {
    v.map_values(|s: String| s@)
}

/// `schtasks` arguments that disable or enable a task.
pub fn task_toggle_args(task: &str, disable: bool) -> (r: Vec<String>)
    ensures
        views(r@) == seq![
            "/Change"@,
            if disable {
                "/DISABLE"@
            } else {
                "/ENABLE"@
            },
            "/TN"@,
            task@,
        ],
{
    let verb = if disable {
        "/DISABLE"
    } else {
        "/ENABLE"
    };
    let r: Vec<String> = vec![owned("/Change"), owned(verb), owned("/TN"), owned(task)];
    assert(views(r@) =~= seq!["/Change"@, verb@, "/TN"@, task@]);
    r
}

/// `sc` arguments that stop or start a service.
pub fn service_control_args(svc: &str, stop: bool) -> (r: Vec<String>)
    ensures
        views(r@) == seq![
            if stop {
                "stop"@
            } else {
                "start"@
            },
            svc@,
        ],
{
    let verb = if stop {
        "stop"
    } else {
        "start"
    };
    let r: Vec<String> = vec![owned(verb), owned(svc)];
    assert(views(r@) =~= seq![verb@, svc@]);
    r
}

/// `reg.exe` arguments that set a DWORD value.
pub open spec fn reg_add_args_of(key: Seq<char>, name: Seq<char>, value: u32) -> Seq<Seq<char>> {
    seq!["add"@, key, "/v"@, name, "/t"@, "REG_DWORD"@, "/d"@, decimal(value as nat), "/f"@]
}

pub fn reg_add_dword_args(key: &str, name: &str, value: u32) -> (r: Vec<String>)
    ensures
        views(r@) == reg_add_args_of(key@, name@, value),
{
    let d = string_of(&decimal_u64(value as u64));
    let r: Vec<String> = vec![
        owned("add"),
        owned(key),
        owned("/v"),
        owned(name),
        owned("/t"),
        owned("REG_DWORD"),
        owned("/d"),
        d,
        owned("/f"),
    ];
    assert(views(r@) =~= reg_add_args_of(key@, name@, value));
    r
}

pub const CORTANA_POLICY_KEY: &'static str =
    "HKLM\\SOFTWARE\\Policies\\Microsoft\\Windows\\Windows Search";
pub const TASKBAR_KEY: &'static str =
    "HKCU\\Software\\Microsoft\\Windows\\CurrentVersion\\Explorer\\Advanced";
pub const NEWS_POLICY_KEY: &'static str = "HKLM\\SOFTWARE\\Policies\\Microsoft\\Dsh";

/// The best-effort `reg.exe` runs of the Cortana and Widgets handlers: the
/// Cortana policy, the Widgets taskbar button, and the news feed policy
/// when the Widgets are disabled.
pub fn reg_exe_runs(a: TweakAction, disable: bool) -> (r: Vec<Vec<String>>)
    ensures
        r@.len() == match a {
            TweakAction::CortanaRelics => 1int,
            TweakAction::Widgets => if disable {
                2int
            } else {
                1int
            },
            _ => 0int,
        },
        a == TweakAction::CortanaRelics ==> views(r@[0]@) == reg_add_args_of(
            CORTANA_POLICY_KEY@,
            "AllowCortana"@,
            flag(!disable),
        ),
        a == TweakAction::Widgets ==> views(r@[0]@) == reg_add_args_of(
            TASKBAR_KEY@,
            "TaskbarDa"@,
            flag(!disable),
        ),
        a == TweakAction::Widgets && disable ==> views(r@[1]@) == reg_add_args_of(
            NEWS_POLICY_KEY@,
            "AllowNewsAndInterests"@,
            0,
        ),
{
    let mut r: Vec<Vec<String>> = Vec::new();
    match a {
        TweakAction::CortanaRelics => {
            r.push(reg_add_dword_args(CORTANA_POLICY_KEY, "AllowCortana", flag_of(!disable)));
        },
        TweakAction::Widgets => {
            r.push(reg_add_dword_args(TASKBAR_KEY, "TaskbarDa", flag_of(!disable)));
            if disable {
                r.push(reg_add_dword_args(NEWS_POLICY_KEY, "AllowNewsAndInterests", 0));
            }
        },
        _ => {},
    }
    r
}

// ── Outcomes ────────────────────────────────────────────────────────────────

/// Texts joined with a separator (`join`).
pub open spec fn joined(parts: Seq<Seq<char>>, sep: Seq<char>) -> Seq<char>
    decreases parts.len(),
{
    if parts.len() == 0 {
        seq![]
    } else if parts.len() == 1 {
        parts[0]
    } else {
        joined(parts.drop_last(), sep) + sep + parts.last()
    }
}

pub fn join_strings(parts: &Vec<String>, sep: &str) -> (r: String)
    ensures
        r@ == joined(views(parts@), sep@),
{
    let mut v: Vec<char> = Vec::new();
    let mut i: usize = 0;
    while i < parts.len()
        invariant
            i <= parts.len(),
            v@ == joined(views(parts@).take(i as int), sep@),
        decreases parts.len() - i,
    {
        assert(views(parts@).take(i as int + 1).drop_last() == views(parts@).take(i as int));
        if i > 0 {
            append_str(&mut v, sep);
        }
        append_str(&mut v, parts[i].as_str());
        i += 1;
    }
    assert(views(parts@).take(parts.len() as int) == views(parts@));
    string_of(&v)
}

/// A batch of task or service changes fails only when every change failed;
/// the error lists the failures.
pub fn batch_outcome(failures: &Vec<String>, total: usize, what: &str) -> (r: Result<(), HardwareError>)
    ensures
        failures.len() == total ==> (r matches Err(HardwareError::Other(m)) && m@ == "All "@
            + what@ + " changes failed: "@ + joined(views(failures@), "; "@)),
        failures.len() != total ==> r is Ok,
{
    if failures.len() == total {
        let mut v = chars_of("All ");
        append_str(&mut v, what);
        append_str(&mut v, " changes failed: ");
        let j = join_strings(failures, "; ");
        append_str(&mut v, j.as_str());
        Err(HardwareError::Other(string_of(&v)))
    } else {
        Ok(())
    }
}

/// Whether `schtasks` output says that the task does not exist on this
/// build (English or Portuguese), which counts as success.
pub fn reports_missing_task(output: &str) -> (r: bool)
    ensures
        r == (find_seq(unicode_lower(output@), "does not exist"@) is Some || find_seq(
            unicode_lower(output@),
            "não existe"@,
        ) is Some),
{
    let lower = to_lowercase(output);
    contains_str(lower.as_str(), "does not exist") || contains_str(lower.as_str(), "não existe")
}

// ── Reading a value back ────────────────────────────────────────────────────

/// The value of a hexadecimal digit (either case), if `c` is one.
pub open spec fn hex_digit_value(c: char) -> Option<int> {
    if '0' <= c && c <= '9' {
        Some(c as int - '0' as int)
    } else if 'a' <= c && c <= 'f' {
        Some(c as int - 'a' as int + 10)
    } else if 'A' <= c && c <= 'F' {
        Some(c as int - 'A' as int + 10)
    } else {
        None
    }
}

/// The number that hexadecimal digits spell, if all of them are digits.
pub open spec fn hex_digits_value(d: Seq<char>) -> Option<int>
    decreases d.len(),
{
    if d.len() == 0 {
        Some(0)
    } else {
        match (hex_digits_value(d.drop_last()), hex_digit_value(d.last())) {
            (Some(v), Some(x)) => Some(v * 16 + x),
            _ => None,
        }
    }
}

/// `0x` and one to eight hexadecimal digits, as `reg query` prints a DWORD.
pub open spec fn reg_dword_word(w: Seq<char>) -> Option<u32> {
    if 3 <= w.len() <= 10 && w[0] == '0' && (w[1] == 'x' || w[1] == 'X') {
        match hex_digits_value(w.skip(2)) {
            Some(v) => Some(v as u32),
            None => None,
        }
    } else {
        None
    }
}

/// The DWORD that the first `name REG_DWORD 0x..` triple among `ws` holds.
pub open spec fn dword_in_words(ws: Seq<Seq<char>>, name: Seq<char>) -> Option<u32>
    decreases ws.len(),
{
    if ws.len() < 3 {
        None
    } else if ws[0] == name && ws[1] == "REG_DWORD"@ && reg_dword_word(ws[2]) is Some {
        reg_dword_word(ws[2])
    } else {
        dword_in_words(ws.skip(1), name)
    }
}

/// 16 to the power `n`.
pub open spec fn pow16(n: nat) -> int
    decreases n,
{
    if n == 0 {
        1
    } else {
        16 * pow16((n - 1) as nat)
    }
}

fn hex_word_value(w: &Vec<char>) -> (r: Option<u32>)
    ensures
        r == reg_dword_word(w@),
{
    if w.len() < 3 || w.len() > 10 || w[0] != '0' || !(w[1] == 'x' || w[1] == 'X') {
        return None;
    }
    let mut v: u64 = 0;
    let mut i: usize = 2;
    while i < w.len()
        invariant
            3 <= w.len() <= 10,
            2 <= i <= w.len(),
            hex_digits_value(w@.skip(2).take(i - 2)) == Some(v as int),
            v < pow16((i - 2) as nat),
        decreases w.len() - i,
    {
        let c = w[i];
        let x: u64 = if '0' <= c && c <= '9' {
            (c as u64) - 48
        } else if 'a' <= c && c <= 'f' {
            (c as u64) - 87
        } else if 'A' <= c && c <= 'F' {
            (c as u64) - 55
        } else {
            assert(w@.skip(2).take(i - 1).last() == c);
            assert(w@.skip(2).take(i - 1).drop_last() == w@.skip(2).take(i - 2));
            proof {
                lemma_hex_prefix_none(w@.skip(2), i - 1);
            }
            return None;
        };
        proof {
            assert(w@.skip(2).take(i - 1).last() == c);
            assert(w@.skip(2).take(i - 1).drop_last() == w@.skip(2).take(i - 2));
            let p = pow16((i - 2) as nat);
            assert(pow16((i - 1) as nat) == 16 * p);
            lemma_pow16_small((i - 2) as nat);
            assert(v * 16 + x < 16 * p) by (nonlinear_arith)
                requires
                    v < p,
                    x < 16,
            ;
        }
        v = v * 16 + x;
        i += 1;
    }
    assert(w@.skip(2).take(i - 2) == w@.skip(2));
    Some(v as u32)
}

proof fn lemma_pow16_small(n: nat)
    requires
        n <= 8,
    ensures
        1 <= pow16(n) <= 0x1_0000_0000,
{
    reveal_with_fuel(pow16, 9);
}

/// A prefix that is not all hexadecimal digits makes every longer one fail.
proof fn lemma_hex_prefix_none(d: Seq<char>, k: int)
    requires
        0 <= k <= d.len(),
        hex_digits_value(d.take(k)) is None,
    ensures
        hex_digits_value(d) is None,
    decreases d.len() - k,
{
    if k < d.len() {
        assert(d.take(k + 1).drop_last() == d.take(k));
        lemma_hex_prefix_none(d, k + 1);
    } else {
        assert(d.take(k) == d);
    }
}

/// The DWORD value `name` in what `reg query <key> /v <name>` printed: the
/// first `name REG_DWORD 0x..` triple of its words; `None` when the value is
/// absent or of another type.
pub fn reg_query_dword(output: &str, name: &str) -> (r: Option<u32>)
    ensures
        r == dword_in_words(words(output@), name@),
{
    let ws = split_words(&chars_of(output));
    let nm = chars_of(name);
    let ty = chars_of("REG_DWORD");
    let ghost all = char_views(ws@);
    assert(all.skip(0) == all);
    let mut i: usize = 0;
    while ws.len() >= 3 && i <= ws.len() - 3
        invariant
            all == char_views(ws@),
            all == words(output@),
            all.len() == ws.len(),
            ty@ == "REG_DWORD"@,
            nm@ == name@,
            i <= ws.len(),
            dword_in_words(all, name@) == dword_in_words(all.skip(i as int), name@),
        decreases ws.len() - i,
    {
        let ghost rest = all.skip(i as int);
        assert(rest[0] == ws@[i as int]@ && rest[1] == ws@[i + 1]@ && rest[2] == ws@[i + 2]@);
        if chars_eq(&ws[i], &nm) && chars_eq(&ws[i + 1], &ty) {
            match hex_word_value(&ws[i + 2]) {
                Some(v) => {
                    assert(rest.len() >= 3 && rest[0] == name@ && rest[1] == "REG_DWORD"@);
                    assert(dword_in_words(rest, name@) == Some(v));
                    return Some(v);
                },
                None => {},
            }
        }
        assert(rest.skip(1) == all.skip(i + 1));
        i += 1;
    }
    assert(all.skip(i as int).len() < 3);
    None
}

// ── Recorded state ──────────────────────────────────────────────────────────

/// The key that records whether a tweak is applied.
pub fn state_key(id: &str) -> (r: String)
    ensures
        r@ == "SOFTWARE\\MiControl\\SysOpt\\"@ + id@,
{
    let mut v = chars_of("SOFTWARE\\MiControl\\SysOpt\\");
    append_str(&mut v, id);
    string_of(&v)
}

/// The key that records the values a tweak replaced.
pub fn prev_key(id: &str) -> (r: String)
    ensures
        r@ == "SOFTWARE\\MiControl\\SysOpt\\"@ + id@ + "\\Prev"@,
{
    let mut v = chars_of("SOFTWARE\\MiControl\\SysOpt\\");
    append_str(&mut v, id);
    append_str(&mut v, "\\Prev");
    string_of(&v)
}

/// Status of one tweak for the user interface.
#[derive(Debug, Clone, PartialEq, Eq)]
pub struct SysOptStatus {
    pub id: String,
    pub applied: bool,
    /// "green", "yellow" or "red".
    pub tier: String,
}

pub open spec fn applied_at(applied: Seq<bool>, i: int) -> bool {
    i < applied.len() && applied[i]
}

/// The status of every tweak, in list order; `applied[i]` tells whether
/// tweak `i` is recorded applied (missing entries count as not applied, as
/// off Windows, where nothing is recorded).
pub fn get_status(applied: &Vec<bool>) -> (r: Result<Vec<SysOptStatus>, HardwareError>)
    ensures
        r matches Ok(v) && v.len() == tweak_table().len() && forall|i: int|
            0 <= i < v.len() ==> {
                &&& (#[trigger] v[i]).id@ == tweak_table()[i].id@
                &&& v[i].applied == applied_at(applied@, i)
                &&& v[i].tier@ == tier_of(tweak_table()[i].id@)
            },
{
    let list = tweaks();
    let mut out: Vec<SysOptStatus> = Vec::new();
    let mut i: usize = 0;
    while i < list.len()
        invariant
            i <= list.len(),
            list@ == tweak_table(),
            out.len() == i,
            forall|k: int|
                0 <= k < i ==> {
                    &&& (#[trigger] out[k]).id@ == tweak_table()[k].id@
                    &&& out[k].applied == applied_at(applied@, k)
                    &&& out[k].tier@ == tier_of(tweak_table()[k].id@)
                },
        decreases list.len() - i,
    {
        let t = list[i];
        let a = i < applied.len() && applied[i];
        out.push(SysOptStatus { id: owned(t.id), applied: a, tier: owned(risk_tier(t.id)) });
        i += 1;
    }
    Ok(out)
}

/// The ids of the tweaks recorded applied among the first `n`, in order.
pub open spec fn reapplied(applied: Seq<bool>, n: int) -> Seq<&'static str>
    decreases n,
{
    if n <= 0 {
        seq![]
    } else if applied_at(applied, n - 1) {
        reapplied(applied, n - 1).push(tweak_table()[n - 1].id)
    } else {
        reapplied(applied, n - 1)
    }
}

/// The tweaks to apply again at start-up (Windows updates reset policies):
/// those recorded applied, in list order.
pub fn restore_all(applied: &Vec<bool>) -> (r: Vec<&'static str>)
    ensures
        r@ == reapplied(applied@, tweak_table().len() as int),
{
    let list = tweaks();
    let mut out: Vec<&'static str> = Vec::new();
    let mut i: usize = 0;
    while i < list.len()
        invariant
            i <= list.len(),
            list@ == tweak_table(),
            out@ == reapplied(applied@, i as int),
        decreases list.len() - i,
    {
        if i < applied.len() && applied[i] {
            out.push(list[i].id);
        }
        i += 1;
    }
    out
}

/// The Windows Update services.
pub open spec fn windows_update_services() -> Seq<Seq<char>> {
    seq!["wuauserv"@, "UsoSvc"@, "BITS"@, "DoSvc"@, "WaaSMedicSvc"@]
}

/// No service that the library disables or restarts is a Windows Update
/// service.
pub proof fn law_windows_update_untouched()
    ensures
        forall|i: int|
            0 <= i < unused_service_table().len() ==> !windows_update_services().contains(
                #[trigger] unused_service_table()[i]@,
            ),
        !windows_update_services().contains("DiagTrack"@),
{
    reveal_strlit("wuauserv");
    reveal_strlit("UsoSvc");
    reveal_strlit("BITS");
    reveal_strlit("DoSvc");
    reveal_strlit("WaaSMedicSvc");
    reveal_strlit("dmwappushservice");
    reveal_strlit("wisvc");
    reveal_strlit("RetailDemo");
    reveal_strlit("PhoneSvc");
    reveal_strlit("MapsBroker");
    reveal_strlit("DiagTrack");
    let w = windows_update_services();
    assert forall|i: int| 0 <= i < unused_service_table().len() implies !w.contains(
        #[trigger] unused_service_table()[i]@,
    ) by {
        let s = unused_service_table()[i]@;
        assert forall|j: int| 0 <= j < w.len() implies w[j] != s by {
            assert(w[j].len() != s.len() || w[j][0] != s[0] || w[j][1] != s[1]);
        }
    }
    assert forall|j: int| 0 <= j < w.len() implies w[j] != "DiagTrack"@ by {
        assert(w[j].len() != "DiagTrack"@.len() || w[j][0] != "DiagTrack"@[0]);
    }
}

} // verus!
