//! USB-C / UCSI view: the metric rows that the terminal interface shows.

use vstd::prelude::*;
use vstd::string::StringExecFns;

use crate::text;
use crate::ucsi;
use crate::ucsi::{
    push_version, PowerRole, UcsiCapability, UcsiConnectorCapability, UcsiConnectorStatus,
    UcsiSnapshot,
};

verus! {

/// What is known of the UCSI mailbox: nothing yet, why reading it failed, or a snapshot.
#[derive(Debug)]
pub struct UcsiState {
    pub snapshot: Option<Result<UcsiSnapshot, String>>,
}

/// A metric row: label and value.
#[derive(Debug)]
pub struct MetricRow {
    pub label: String,
    pub value: String,
}

/// The views of a list of rows: label and value of each.
pub open spec fn row_views(list: Seq<MetricRow>) -> Seq<(Seq<char>, Seq<char>)> {
    Seq::new(list.len(), |i: int| (list[i].label@, list[i].value@))
}

/// USB-C / UCSI view, stateless; all data is read from [`UcsiState`].
#[derive(Debug, Clone, Copy, PartialEq, Eq, Structural)]
pub struct Ucsi;

impl Ucsi {
    pub fn new() -> (view: Self)
        ensures
            view == Ucsi,
    {
        Ucsi
    }

    /// True once a snapshot is there; the title shows the state by it.
    pub fn is_healthy(&self, state: &UcsiState) -> (result: bool)
        ensures
            result == (state.snapshot matches Some(Ok(_))),
    {
        match &state.snapshot {
            Some(Ok(_)) => true,
            _ => false,
        }
    }
}

/// The number of connectors as text.
pub open spec fn capability_text(cap: UcsiCapability) -> Seq<char> {
    text::decimal(cap.num_connectors as nat) + (if cap.num_connectors == 1 {
        " connector"@
    } else {
        " connectors"@
    })
}

/// The power roles of a connector as text.
pub open spec fn connector_text(cap: UcsiConnectorCapability) -> Seq<char> {
    match (cap.spec_provider(), cap.spec_consumer()) {
        (true, true) => "provider/consumer"@,
        (true, false) => "provider"@,
        (false, true) => "consumer"@,
        (false, false) => "-"@,
    }
}

/// The status of a connector as text, with `mid_dot` between its two parts.
pub open spec fn status_text(status: UcsiConnectorStatus, mid_dot: Seq<char>) -> Seq<char> {
    if !status.connect_status {
        "Disconnected"@
    } else {
        match status.status {
            Some(connected) => "Connected "@ + mid_dot + (match connected.power_direction {
                PowerRole::Sink => " Sink"@,
                PowerRole::Source => " Source"@,
            }),
            None => "Connected"@,
        }
    }
}

/// The rows for a state: one while pending or failed, four once a snapshot is there.
pub open spec fn state_rows(state: UcsiState, mid_dot: Seq<char>) -> Seq<(Seq<char>, Seq<char>)> {
    match state.snapshot {
        None => seq![("UCSI"@, "Pending..."@)],
        Some(Err(e)) => seq![("UCSI"@, "Error: "@ + e@)],
        Some(Ok(snapshot)) => seq![
            ("Version"@, ucsi::version_text(snapshot.version)),
            ("Capability"@, capability_text(snapshot.capability)),
            ("Conn 1"@, connector_text(snapshot.connector_capability)),
            ("Status"@, status_text(snapshot.connector_status, mid_dot)),
        ],
    }
}

/// A row.
fn metric_row(label: &str, value: String) -> (row: MetricRow)
    ensures
        row.label@ == label@,
        row.value@ == value@,
{
    MetricRow { label: label.to_owned(), value }
}

/// One honest row while pending or failed; four compact rows once the snapshot lands.
pub fn rows(state: &UcsiState, mid_dot: &str) -> (list: Vec<MetricRow>)
    ensures
        row_views(list@) == state_rows(*state, mid_dot@),
{
    let list = match &state.snapshot {
        None => vec![metric_row("UCSI", "Pending...".to_owned())],
        Some(Err(e)) => {
            let mut value = "Error: ".to_owned();
            value.append(e.as_str());
            vec![metric_row("UCSI", value)]
        },
        Some(Ok(snapshot)) => vec![
            metric_row("Version", version_bcd(snapshot.version)),
            metric_row("Capability", capability_summary(&snapshot.capability)),
            metric_row("Conn 1", connector_summary(&snapshot.connector_capability)),
            metric_row("Status", status_summary(&snapshot.connector_status, mid_dot)),
        ],
    };
    list
}

/// Format the BCD VERSION word (`0x0120` gives `1.2`) at the presentation boundary.
pub fn version_bcd(v: u16) -> (text: String)
    ensures
        text@ == ucsi::version_text(v),
{
    let mut text = String::new();
    push_version(&mut text, v);
    text
}

/// The number of connectors.
pub fn capability_summary(cap: &UcsiCapability) -> (text: String)
    ensures
        text@ == capability_text(*cap),
{
    let mut text = String::new();
    text::push_decimal(&mut text, cap.num_connectors as u64);
    if cap.num_connectors == 1 {
        text.append(" connector");
    } else {
        text.append(" connectors");
    }
    text
}

/// The power roles of a connector.
pub fn connector_summary(cap: &UcsiConnectorCapability) -> (text: String)
    ensures
        text@ == connector_text(*cap),
{
    let text = match (cap.provider(), cap.consumer()) {
        (true, true) => "provider/consumer",
        (true, false) => "provider",
        (false, true) => "consumer",
        (false, false) => "-",
    };
    text.to_owned()
}

/// The status of a connector.
pub fn status_summary(status: &UcsiConnectorStatus, mid_dot: &str) -> (text: String)
    ensures
        text@ == status_text(*status, mid_dot@),
{
    if !status.connect_status {
        return "Disconnected".to_owned();
    }
    match &status.status {
        Some(connected) => {
            let mut text = "Connected ".to_owned();
            text.append(mid_dot);
            match connected.power_direction {
                PowerRole::Sink => text.append(" Sink"),
                PowerRole::Source => text.append(" Source"),
            }
            text
        },
        None => "Connected".to_owned(),
    }
}

/// The view is honest: it shows details if and only if a snapshot is there, which is also
/// when the state counts as healthy; else a single row says what is missing.
pub proof fn law_details_only_with_snapshot(state: UcsiState, mid_dot: Seq<char>)
    ensures
        state_rows(state, mid_dot).len() == (if state.snapshot matches Some(Ok(_)) {
            4
        } else {
            1int
        }),
        !(state.snapshot matches Some(Ok(_))) ==> state_rows(state, mid_dot)[0].0 == "UCSI"@,
{
}

/// The rows are those of the state: what is missing, why reading failed, or the four values
/// of the snapshot in order, each under its label.
pub proof fn law_rows_show_the_state(state: UcsiState, mid_dot: Seq<char>)
    ensures
        state.snapshot is None ==> state_rows(state, mid_dot) == seq![("UCSI"@, "Pending..."@)],
        state.snapshot matches Some(Err(e)) ==> state_rows(state, mid_dot) == seq![
            ("UCSI"@, "Error: "@ + e@),
        ],
        state.snapshot matches Some(Ok(snapshot)) ==> {
            let rows = state_rows(state, mid_dot);
            &&& rows.len() == 4
            &&& rows[0] == ("Version"@, ucsi::version_text(snapshot.version))
            &&& rows[1] == ("Capability"@, capability_text(snapshot.capability))
            &&& rows[2] == ("Conn 1"@, connector_text(snapshot.connector_capability))
            &&& rows[3] == ("Status"@, status_text(snapshot.connector_status, mid_dot))
        },
{
}

/// The number of connectors is shown as it is, in the singular for one alone.
pub proof fn law_connectors_are_counted(cap: UcsiCapability)
    ensures
        cap.num_connectors == 1 ==> capability_text(cap) == text::decimal(1) + " connector"@,
        cap.num_connectors != 1 ==> capability_text(cap) == text::decimal(cap.num_connectors as nat)
            + " connectors"@,
{
}

/// Each power role of a connector is shown if and only if it has it.
pub proof fn law_power_roles_are_shown(cap: UcsiConnectorCapability)
    ensures
        cap.spec_provider() && cap.spec_consumer() ==> connector_text(cap) == "provider/consumer"@,
        cap.spec_provider() && !cap.spec_consumer() ==> connector_text(cap) == "provider"@,
        !cap.spec_provider() && cap.spec_consumer() ==> connector_text(cap) == "consumer"@,
        !cap.spec_provider() && !cap.spec_consumer() ==> connector_text(cap) == "-"@,
{
}

/// A connector is shown as connected if and only if it is, with the direction in which power
/// flows where that is known, and whatever the partner is.
pub proof fn law_connection_is_shown(status: UcsiConnectorStatus, mid_dot: Seq<char>)
    ensures
        !status.connect_status ==> status_text(status, mid_dot) == "Disconnected"@,
        status.connect_status && status.status is None ==> status_text(status, mid_dot)
            == "Connected"@,
        status.connect_status ==> (status.status matches Some(connected) ==> {
            &&& connected.power_direction is Sink ==> status_text(status, mid_dot) == "Connected "@
                + mid_dot + " Sink"@
            &&& connected.power_direction is Source ==> status_text(status, mid_dot)
                == "Connected "@ + mid_dot + " Source"@
        }),
{
}

/// A list of rows is seen row by row.
pub proof fn law_rows_are_seen_whole(list: Seq<MetricRow>, i: int)
    ensures
        row_views(list).len() == list.len(),
        0 <= i < list.len() ==> row_views(list)[i] == (list[i].label@, list[i].value@),
{
}

} // verus!
