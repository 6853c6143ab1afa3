//! The status bar's connection summary for the selected cluster.
use vstd::prelude::*;
use crate::text::{push_char, push_str};

verus! {

/// The circle icon (Phosphor regular `CIRCLE`).
pub open spec fn circle_icon() -> Seq<char> {
    seq!['\u{E18A}']
}

/// The circle-notch icon (Phosphor regular `CIRCLE_NOTCH`).
pub open spec fn circle_notch_icon() -> Seq<char> {
    seq!['\u{EB44}']
}

/// The check-circle icon (Phosphor regular `CHECK_CIRCLE`).
pub open spec fn check_circle_icon() -> Seq<char> {
    seq!['\u{E184}']
}

/// The warning-circle icon (Phosphor regular `WARNING_CIRCLE`).
pub open spec fn warning_circle_icon() -> Seq<char> {
    seq!['\u{E4E2}']
}

/// The check icon (Phosphor regular `CHECK`).
pub open spec fn check_icon() -> Seq<char> {
    seq!['\u{E182}']
}

/// `egui_phosphor::regular::CIRCLE`, the code point U+E18A as text.
#[verifier::external_body]
pub(crate) fn circle() -> (r: &'static str)
    ensures
        r@ == circle_icon(),
{
    egui_phosphor::regular::CIRCLE
}

/// `egui_phosphor::regular::CIRCLE_NOTCH`, the code point U+EB44 as text.
#[verifier::external_body]
pub(crate) fn circle_notch() -> (r: &'static str)
    ensures
        r@ == circle_notch_icon(),
{
    egui_phosphor::regular::CIRCLE_NOTCH
}

/// `egui_phosphor::regular::CHECK_CIRCLE`, the code point U+E184 as text.
#[verifier::external_body]
pub(crate) fn check_circle() -> (r: &'static str)
    ensures
        r@ == check_circle_icon(),
{
    egui_phosphor::regular::CHECK_CIRCLE
}

/// `egui_phosphor::regular::WARNING_CIRCLE`, the code point U+E4E2 as text.
#[verifier::external_body]
pub(crate) fn warning_circle() -> (r: &'static str)
    ensures
        r@ == warning_circle_icon(),
{
    egui_phosphor::regular::WARNING_CIRCLE
}

/// `egui_phosphor::regular::CHECK`, the code point U+E182 as text.
#[verifier::external_body]
pub(crate) fn check() -> (r: &'static str)
    ensures
        r@ == check_icon(),
{
    egui_phosphor::regular::CHECK
}

/// What the cluster reported when it connected.
#[derive(Debug, PartialEq, Eq)]
pub struct ClusterConnectionInfo {
    pub version: String,
    pub platform: Option<String>,
}

/// Where a cluster's connection stands.
#[derive(Debug, PartialEq, Eq)]
pub enum ClusterConnectionState {
    Idle,
    Initializing,
    Ready { info: ClusterConnectionInfo },
    Failed { error: String },
}

/// How the status bar colours the summary.
#[derive(Clone, Copy, Debug, PartialEq, Eq, Structural)]
pub enum StatusBarConnectionTone {
    Default,
    Weak,
    Accent,
    Error,
}

/// The status bar's text, its hover text, and its tone.
#[derive(Debug, PartialEq, Eq)]
pub struct StatusBarConnectionSummary {
    pub text: String,
    pub hover: Option<String>,
    pub tone: StatusBarConnectionTone,
}

/// `"version unknown"`.
pub open spec fn version_unknown() -> Seq<char> {
    "version unknown"@
}

/// The version shown: the reported one, or `"version unknown"` when it is
/// empty.
pub open spec fn cluster_version_text(version: Seq<char>) -> Seq<char> {
    if version.len() == 0 {
        version_unknown()
    } else {
        version
    }
}

/// The version shown: the reported one, or `"version unknown"` when empty.
pub fn status_bar_cluster_version(version: &str) -> (r: &str)
    ensures
        r@ == cluster_version_text(version@),
{
    if crate::resource_panel::components::char_count(version) == 0 {
        "version unknown"
    } else {
        version
    }
}

/// `"<icon> <cluster> | <version> | <status>"`.
pub open spec fn summary_text(icon: Seq<char>, cluster: Seq<char>, version: Seq<char>, status: Seq<char>) -> Seq<char> {
    icon + seq![' '] + cluster + " | "@ + version + " | "@ + status
}

fn summary_line(icon: &str, cluster: &str, version: &str, status: &str) -> (r: String)
    ensures
        r@ == summary_text(icon@, cluster@, version@, status@),
{
    let mut s = icon.to_owned();
    push_char(&mut s, ' ');
    push_str(&mut s, cluster);
    push_str(&mut s, " | ");
    push_str(&mut s, version);
    push_str(&mut s, " | ");
    push_str(&mut s, status);
    s
}

/// The optional text's view.
pub open spec fn opt_str_view(o: Option<String>) -> Option<Seq<char>> {
    match o {
        Some(s) => Some(s@),
        None => None,
    }
}

/// The status bar's summary text for a cluster (or none selected) in a
/// connection state (idle when unknown).
pub open spec fn connection_text(cluster: Option<Seq<char>>, state: Option<ClusterConnectionState>) -> Seq<char> {
    match cluster {
        None => circle_icon() + " No cluster selected"@,
        Some(name) => match state {
            Some(ClusterConnectionState::Initializing) =>
                summary_text(circle_notch_icon(), name, version_unknown(), "Connecting"@),
            Some(ClusterConnectionState::Ready { info }) =>
                summary_text(check_circle_icon(), name, cluster_version_text(info.version@), "Connected"@),
            Some(ClusterConnectionState::Failed { .. }) =>
                summary_text(warning_circle_icon(), name, version_unknown(), "Connection failed"@),
            _ => summary_text(circle_icon(), name, version_unknown(), "Not connected"@),
        },
    }
}

/// The status bar's hover text.
pub open spec fn connection_hover(cluster: Option<Seq<char>>, state: Option<ClusterConnectionState>) -> Option<Seq<char>> {
    match cluster {
        None => None,
        Some(_) => match state {
            Some(ClusterConnectionState::Initializing) => Some("Initializing cluster connection"@),
            Some(ClusterConnectionState::Ready { info }) => match info.platform {
                Some(p) => Some("Platform: "@ + p@),
                None => None,
            },
            Some(ClusterConnectionState::Failed { error }) => Some(error@),
            _ => Some("Cluster has not been initialized yet"@),
        },
    }
}

/// The status bar's tone.
pub open spec fn connection_tone(cluster: Option<Seq<char>>, state: Option<ClusterConnectionState>) -> StatusBarConnectionTone {
    match cluster {
        None => StatusBarConnectionTone::Weak,
        Some(_) => match state {
            Some(ClusterConnectionState::Initializing) => StatusBarConnectionTone::Default,
            Some(ClusterConnectionState::Ready { .. }) => StatusBarConnectionTone::Accent,
            Some(ClusterConnectionState::Failed { .. }) => StatusBarConnectionTone::Error,
            _ => StatusBarConnectionTone::Weak,
        },
    }
}

/// The optional borrowed text's view.
pub open spec fn opt_ref_view(o: Option<&str>) -> Option<Seq<char>> {
    match o {
        Some(s) => Some(s@),
        None => None,
    }
}

/// The optional borrowed state.
pub open spec fn opt_state(o: Option<&ClusterConnectionState>) -> Option<ClusterConnectionState> {
    match o {
        Some(s) => Some(*s),
        None => None,
    }
}

/// The status bar's summary of the selected cluster's connection.
pub fn status_bar_connection_summary(
    cluster_name: Option<&str>,
    connection_state: Option<&ClusterConnectionState>,
) -> (r: StatusBarConnectionSummary)
    ensures
        r.text@ == connection_text(opt_ref_view(cluster_name), opt_state(connection_state)),
        opt_str_view(r.hover) == connection_hover(opt_ref_view(cluster_name), opt_state(connection_state)),
        r.tone == connection_tone(opt_ref_view(cluster_name), opt_state(connection_state)),
{
    let name = match cluster_name {
        None => {
            let mut text = circle().to_owned();
            push_str(&mut text, " No cluster selected");
            return StatusBarConnectionSummary { text, hover: None, tone: StatusBarConnectionTone::Weak };
        },
        Some(name) => name,
    };
    match connection_state {
        Some(ClusterConnectionState::Initializing) => StatusBarConnectionSummary {
            text: summary_line(circle_notch(), name, "version unknown", "Connecting"),
            hover: Some("Initializing cluster connection".to_owned()),
            tone: StatusBarConnectionTone::Default,
        },
        Some(ClusterConnectionState::Ready { info }) => {
            let hover = match &info.platform {
                Some(platform) => {
                    let mut h = "Platform: ".to_owned();
                    push_str(&mut h, platform.as_str());
                    Some(h)
                },
                None => None,
            };
            StatusBarConnectionSummary {
                text: summary_line(check_circle(), name, status_bar_cluster_version(info.version.as_str()), "Connected"),
                hover,
                tone: StatusBarConnectionTone::Accent,
            }
        },
        Some(ClusterConnectionState::Failed { error }) => StatusBarConnectionSummary {
            text: summary_line(warning_circle(), name, "version unknown", "Connection failed"),
            hover: Some(error.clone()),
            tone: StatusBarConnectionTone::Error,
        },
        _ => StatusBarConnectionSummary {
            text: summary_line(circle(), name, "version unknown", "Not connected"),
            hover: Some("Cluster has not been initialized yet".to_owned()),
            tone: StatusBarConnectionTone::Weak,
        },
    }
}

/// A cluster whose connection is idle is summarised as one whose state is
/// not known: "Not connected", with the same hover text and tone; and the
/// summary says "Connecting" exactly when the cluster is initialising.
pub proof fn law_idle_cluster_is_not_connected(name: Seq<char>, state: Option<ClusterConnectionState>)
    ensures
        connection_text(Some(name), Some(ClusterConnectionState::Idle)) == connection_text(Some(name), None),
        connection_hover(Some(name), Some(ClusterConnectionState::Idle)) == connection_hover(Some(name), None),
        connection_tone(Some(name), Some(ClusterConnectionState::Idle)) == connection_tone(Some(name), None),
        connection_text(Some(name), None) == summary_text(circle_icon(), name, "version unknown"@, "Not connected"@),
        ({
            let t = connection_text(Some(name), state);
            (t.len() >= 10 && t.subrange(t.len() - 10, t.len() as int) == "Connecting"@)
                <==> state == Some(ClusterConnectionState::Initializing)
        }),
{
    reveal_strlit("Connecting");
    reveal_strlit("Connected");
    reveal_strlit("Connection failed");
    reveal_strlit("Not connected");
    reveal_strlit("version unknown");
    reveal_strlit(" | ");
    let t = connection_text(Some(name), state);
    if t.len() >= 10 && t.subrange(t.len() - 10, t.len() as int) == "Connecting"@ {
        assert(t.subrange(t.len() - 10, t.len() as int)[9] == 'g');
        assert(t[t.len() - 1] == 'g');
    }
    if state == Some(ClusterConnectionState::Initializing) {
        assert(t.subrange(t.len() - 10, t.len() as int) =~= "Connecting"@);
    }
}
/// The status bar in each state of the selected cluster: nothing selected
/// reads "No cluster selected"; initialising reads "Connecting" with the
/// version unknown; ready reads "Connected" with the reported version (or
/// "version unknown" when it is empty) and the platform on hover; failed
/// reads "Connection failed" with the error on hover.
pub proof fn law_status_bar_per_state(name: Seq<char>, info: ClusterConnectionInfo, error: String)
    ensures
        connection_text(None, None) == seq!['\u{E18A}'] + " No cluster selected"@,
        connection_hover(None, None) is None,
        connection_tone(None, None) == StatusBarConnectionTone::Weak,
        connection_text(Some(name), Some(ClusterConnectionState::Initializing))
            == seq!['\u{EB44}', ' '] + name + " | version unknown | Connecting"@,
        connection_tone(Some(name), Some(ClusterConnectionState::Initializing)) == StatusBarConnectionTone::Default,
        connection_hover(Some(name), Some(ClusterConnectionState::Initializing)) == Some("Initializing cluster connection"@),
        connection_text(Some(name), Some(ClusterConnectionState::Ready { info }))
            == seq!['\u{E184}', ' '] + name + " | "@ + (if info.version@.len() == 0 { "version unknown"@ } else { info.version@ })
                + " | Connected"@,
        connection_hover(Some(name), Some(ClusterConnectionState::Ready { info })) == match info.platform {
            Some(p) => Some("Platform: "@ + p@),
            None => None,
        },
        connection_tone(Some(name), Some(ClusterConnectionState::Ready { info })) == StatusBarConnectionTone::Accent,
        connection_text(Some(name), Some(ClusterConnectionState::Failed { error }))
            == seq!['\u{E4E2}', ' '] + name + " | version unknown | Connection failed"@,
        connection_hover(Some(name), Some(ClusterConnectionState::Failed { error })) == Some(error@),
        connection_tone(Some(name), Some(ClusterConnectionState::Failed { error })) == StatusBarConnectionTone::Error,
        connection_text(Some(name), None) == seq!['\u{E18A}', ' '] + name + " | version unknown | Not connected"@,
        connection_hover(Some(name), None) == Some("Cluster has not been initialized yet"@),
        connection_tone(Some(name), None) == StatusBarConnectionTone::Weak,
{
    reveal_strlit(" No cluster selected");
    reveal_strlit("Initializing cluster connection");
    reveal_strlit(" | version unknown | Connecting");
    reveal_strlit(" | version unknown | Connection failed");
    reveal_strlit(" | version unknown | Not connected");
    reveal_strlit(" | Connected");
    reveal_strlit(" | ");
    reveal_strlit("version unknown");
    reveal_strlit("Connecting");
    reveal_strlit("Connected");
    reveal_strlit("Connection failed");
    reveal_strlit("Not connected");
    assert(summary_text(circle_notch_icon(), name, "version unknown"@, "Connecting"@)
        =~= seq!['\u{EB44}', ' '] + name + " | version unknown | Connecting"@);
    assert(summary_text(warning_circle_icon(), name, "version unknown"@, "Connection failed"@)
        =~= seq!['\u{E4E2}', ' '] + name + " | version unknown | Connection failed"@);
    assert(summary_text(circle_icon(), name, "version unknown"@, "Not connected"@)
        =~= seq!['\u{E18A}', ' '] + name + " | version unknown | Not connected"@);
    assert(summary_text(check_circle_icon(), name, cluster_version_text(info.version@), "Connected"@)
        =~= seq!['\u{E184}', ' '] + name + " | "@ + cluster_version_text(info.version@) + " | Connected"@);
}
} // verus!
