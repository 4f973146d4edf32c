//! The incident lifecycle of one alert: Active incidents are opened,
//! refreshed, escalated (never downgraded) and resolved, one tick at a time.

use vstd::prelude::*;
use vstd::string::StringExecFns;

use crate::alert::clone_opt;
use crate::alert::Alert;

verus! {

/// Status of an incident; stored as 0 (Active) or 1 (Resolved).
#[derive(Debug, PartialEq, Eq, Clone, Copy, Structural)]
pub enum IncidentStatus {
    Active,
    Resolved,
}

/// Severity of an incident; stored as 0 (Warning) or 1 (Critical).
#[derive(Debug, PartialEq, Eq, Clone, Copy, Structural)]
pub enum Severity {
    Warning,
    Critical,
}

impl From<i32> for IncidentStatus {
    fn from(v: i32) -> (r: IncidentStatus) {
        if v == 0 {
            IncidentStatus::Active
        } else {
            IncidentStatus::Resolved
        }
    }
}

impl vstd::std_specs::convert::FromSpecImpl<i32> for IncidentStatus {
    open spec fn obeys_from_spec() -> bool {
        true
    }

    open spec fn from_spec(v: i32) -> IncidentStatus {
        if v == 0 {
            IncidentStatus::Active
        } else {
            IncidentStatus::Resolved
        }
    }
}

impl From<i32> for Severity {
    fn from(v: i32) -> (r: Severity) {
        if v == 0 {
            Severity::Warning
        } else {
            Severity::Critical
        }
    }
}

impl vstd::std_specs::convert::FromSpecImpl<i32> for Severity {
    open spec fn obeys_from_spec() -> bool {
        true
    }

    open spec fn from_spec(v: i32) -> Severity {
        if v == 0 {
            Severity::Warning
        } else {
            Severity::Critical
        }
    }
}

impl IncidentStatus {
    /// The stored code: 0 for Active, 1 for Resolved.
    pub fn code(&self) -> (r: i32)
        ensures
            r == (if *self == IncidentStatus::Active {
                0i32
            } else {
                1i32
            }),
    {
        match self {
            IncidentStatus::Active => 0,
            IncidentStatus::Resolved => 1,
        }
    }

    /// The name shown to people.
    pub fn as_str(&self) -> (r: &'static str)
        ensures
            r@ == (if *self == IncidentStatus::Active {
                "Active"@
            } else {
                "Resolved"@
            }),
    {
        match self {
            IncidentStatus::Active => "Active",
            IncidentStatus::Resolved => "Resolved",
        }
    }
}

pub open spec fn rank(s: Severity) -> int {
    match s {
        Severity::Warning => 0,
        Severity::Critical => 1,
    }
}

impl Severity {
    /// The stored code: 0 for Warning, 1 for Critical.
    pub fn code(&self) -> (r: i32)
        ensures
            r as int == rank(*self),
    {
        match self {
            Severity::Warning => 0,
            Severity::Critical => 1,
        }
    }

    /// The name shown to people.
    pub fn as_str(&self) -> (r: &'static str)
        ensures
            r@ == (if *self == Severity::Warning {
                "Warning"@
            } else {
                "Critical"@
            }),
    {
        match self {
            Severity::Warning => "Warning",
            Severity::Critical => "Critical",
        }
    }
}

/// The lifecycle record of a firing alert. Times are seconds since the epoch.
pub struct Incident {
    pub id: i64,
    pub alerts_id: i64,
    pub host_uuid: String,
    pub hostname: String,
    pub status: IncidentStatus,
    pub severity: Severity,
    pub result: String,
    pub started_at: i64,
    pub updated_at: i64,
    pub resolved_at: Option<i64>,
    pub alerts_name: String,
    pub alerts_lookup: String,
    pub alerts_warn: String,
    pub alerts_crit: String,
    pub alerts_info: Option<String>,
}

impl Incident {
    /// `resolved_at` is set exactly when the incident is resolved, and the
    /// timestamps never go backwards.
    pub open spec fn wf(&self) -> bool {
        &&& (self.status == IncidentStatus::Resolved <==> self.resolved_at is Some)
        &&& self.started_at <= self.updated_at
        &&& (self.resolved_at matches Some(r) ==> self.updated_at <= r)
    }
}

/// The mail that a tick sends.
#[derive(Debug, PartialEq, Eq, Clone, Copy, Structural)]
pub enum Notification {
    Opened,
    Escalated,
    Resolved,
}

/// What one tick does to the incidents of an alert.
#[derive(Debug, PartialEq, Eq, Clone, Copy, Structural)]
pub enum TickAction {
    /// Nothing fires and nothing is open: no write, no mail.
    Idle,
    /// The open incident is resolved.
    Resolve,
    /// The open incident takes the new observation; its severity is raised
    /// to the given one, if any.
    Refresh(Option<Severity>),
    /// A new incident is opened at this severity.
    Open(Severity),
}

/// The severity a tick fires at: crit dominates warn.
pub open spec fn firing_severity(should_warn: bool, should_crit: bool) -> Option<Severity> {
    if should_crit {
        Some(Severity::Critical)
    } else if should_warn {
        Some(Severity::Warning)
    } else {
        None
    }
}

/// The action of a tick, given the severity of the open incident, if any.
pub open spec fn plan(open: Option<Severity>, should_warn: bool, should_crit: bool) -> TickAction {
    match firing_severity(should_warn, should_crit) {
        None => match open {
            None => TickAction::Idle,
            Some(_) => TickAction::Resolve,
        },
        Some(s) => match open {
            None => TickAction::Open(s),
            Some(p) => if rank(s) > rank(p) {
                TickAction::Refresh(Some(s))
            } else {
                TickAction::Refresh(None)
            },
        },
    }
}

/// The mail that goes with an action.
pub open spec fn notification_for(a: TickAction) -> Option<Notification> {
    match a {
        TickAction::Idle => None,
        TickAction::Resolve => Some(Notification::Resolved),
        TickAction::Refresh(raised) => if raised is Some {
            Some(Notification::Escalated)
        } else {
            None
        },
        TickAction::Open(_) => Some(Notification::Opened),
    }
}

/// The severity a tick fires at, if any.
pub fn severity_of(should_warn: bool, should_crit: bool) -> (r: Option<Severity>)
    ensures
        r == firing_severity(should_warn, should_crit),
{
    if should_crit {
        Some(Severity::Critical)
    } else if should_warn {
        Some(Severity::Warning)
    } else {
        None
    }
}

/// Decides what a tick does, given the severity of the open incident.
pub fn plan_tick(open: Option<Severity>, should_warn: bool, should_crit: bool) -> (r: TickAction)
    ensures
        r == plan(open, should_warn, should_crit),
{
    match severity_of(should_warn, should_crit) {
        None => match open {
            None => TickAction::Idle,
            Some(_) => TickAction::Resolve,
        },
        Some(s) => match open {
            None => TickAction::Open(s),
            Some(p) => if s.code() > p.code() {
                TickAction::Refresh(Some(s))
            } else {
                TickAction::Refresh(None)
            },
        },
    }
}

/// The mail that goes with an action.
pub fn notification_of(a: &TickAction) -> (r: Option<Notification>)
    ensures
        r == notification_for(*a),
{
    match a {
        TickAction::Idle => None,
        TickAction::Resolve => Some(Notification::Resolved),
        TickAction::Refresh(raised) => match raised {
            Some(_) => Some(Notification::Escalated),
            None => None,
        },
        TickAction::Open(_) => Some(Notification::Opened),
    }
}

/// What a tick decided and the incident row it writes.
pub struct TickOutcome {
    pub action: TickAction,
    /// The row written: the updated open incident, or the new one.
    pub record: Option<Incident>,
    pub notification: Option<Notification>,
}

/// `a` and `b` are the same incident: same identity, host and alert snapshot.
pub open spec fn same_incident(a: Incident, b: Incident) -> bool {
    &&& a.id == b.id
    &&& a.alerts_id == b.alerts_id
    &&& a.host_uuid == b.host_uuid
    &&& a.hostname == b.hostname
    &&& a.started_at == b.started_at
    &&& a.alerts_name == b.alerts_name
    &&& a.alerts_lookup == b.alerts_lookup
    &&& a.alerts_warn == b.alerts_warn
    &&& a.alerts_crit == b.alerts_crit
    &&& a.alerts_info == b.alerts_info
}

/// `n` is a fresh Active incident of `alert` at severity `s`, opened at `now`.
pub open spec fn opened_incident(
    n: Incident,
    alert: Alert,
    s: Severity,
    result: Seq<char>,
    now: i64,
    new_id: i64,
) -> bool {
    &&& n.id == new_id
    &&& n.alerts_id == alert.id
    &&& n.host_uuid == alert.host_uuid
    &&& n.hostname == alert.hostname
    &&& n.status == IncidentStatus::Active
    &&& n.severity == s
    &&& n.result@ == result
    &&& n.started_at == now
    &&& n.updated_at == now
    &&& n.resolved_at is None
    &&& n.alerts_name == alert.name
    &&& n.alerts_lookup == alert.lookup
    &&& n.alerts_warn == alert.warn
    &&& n.alerts_crit == alert.crit
    &&& n.alerts_info == alert.info
}

pub open spec fn open_severity(open: Option<Incident>) -> Option<Severity> {
    match open {
        Some(i) => Some(i.severity),
        None => None,
    }
}

/// What a tick at time `now` with observation `result` gives, from the open
/// incident `open` of `alert`.
pub open spec fn tick_post(
    open: Option<Incident>,
    alert: Alert,
    should_warn: bool,
    should_crit: bool,
    result: Seq<char>,
    now: i64,
    new_id: i64,
    r: TickOutcome,
) -> bool {
    &&& r.action == plan(open_severity(open), should_warn, should_crit)
    &&& r.notification == notification_for(r.action)
    &&& match r.action {
        TickAction::Idle => r.record is None,
        TickAction::Resolve => r.record matches Some(n) && open matches Some(i) && same_incident(n, i)
            && n.status == IncidentStatus::Resolved && n.severity == i.severity && n.result
            == i.result && n.updated_at == now && n.resolved_at == Some(now),
        TickAction::Refresh(raised) => r.record matches Some(n) && open matches Some(i)
            && same_incident(n, i) && n.status == IncidentStatus::Active && n.resolved_at is None
            && n.result@ == result && n.updated_at == now && n.severity == (match raised {
            Some(s) => s,
            None => i.severity,
        }),
        TickAction::Open(s) => r.record matches Some(n) && opened_incident(
            n,
            alert,
            s,
            result,
            now,
            new_id,
        ),
    }
}

/// One tick of the incident state machine. `open` is the Active incident of
/// `alert`, if there is one; `new_id` names the incident a tick opens.
pub fn advance(
    open: Option<Incident>,
    alert: &Alert,
    should_warn: bool,
    should_crit: bool,
    result: &str,
    now: i64,
    new_id: i64,
) -> (r: TickOutcome)
    requires
        open matches Some(i) ==> i.wf() && i.status == IncidentStatus::Active && i.updated_at
            <= now,
    ensures
        tick_post(open, *alert, should_warn, should_crit, result@, now, new_id, r),
        r.record matches Some(n) ==> n.wf(),
        // severity never goes down within one incident
        open matches Some(i) ==> (r.record matches Some(n) ==> rank(i.severity) <= rank(
            n.severity,
        )),
{
    let open_sev = match &open {
        Some(i) => Some(i.severity),
        None => None,
    };
    let action = plan_tick(open_sev, should_warn, should_crit);
    let notification = notification_of(&action);
    let record = match action {
        TickAction::Idle => None,
        TickAction::Resolve => match open {
            Some(i) => Some(
                Incident {
                    status: IncidentStatus::Resolved,
                    updated_at: now,
                    resolved_at: Some(now),
                    ..i
                },
            ),
            None => None,
        },
        TickAction::Refresh(raised) => match open {
            Some(i) => {
                let severity = match raised {
                    Some(s) => s,
                    None => i.severity,
                };
                Some(
                    Incident {
                        result: String::from_str(result),
                        updated_at: now,
                        severity: severity,
                        ..i
                    },
                )
            },
            None => None,
        },
        TickAction::Open(s) => Some(
            Incident {
                id: new_id,
                alerts_id: alert.id,
                host_uuid: alert.host_uuid.clone(),
                hostname: alert.hostname.clone(),
                status: IncidentStatus::Active,
                severity: s,
                result: String::from_str(result),
                started_at: now,
                updated_at: now,
                resolved_at: None,
                alerts_name: alert.name.clone(),
                alerts_lookup: alert.lookup.clone(),
                alerts_warn: alert.warn.clone(),
                alerts_crit: alert.crit.clone(),
                alerts_info: clone_opt(&alert.info),
            },
        ),
    };
    TickOutcome { action, record, notification }
}

/// The incidents of one alert after a tick writes `rec`: the open row at
/// `pos` is replaced, or the new row is appended when nothing was open.
pub open spec fn after_tick(rows: Seq<Incident>, pos: Option<int>, rec: Option<Incident>) -> Seq<
    Incident,
> {
    match rec {
        None => rows,
        Some(n) => match pos {
            Some(p) => rows.update(p, n),
            None => rows.push(n),
        },
    }
}

/// At most one row of `rows` is Active.
pub open spec fn single_active(rows: Seq<Incident>) -> bool {
    forall|a: int, b: int|
        0 <= a < rows.len() && 0 <= b < rows.len() && #[trigger] rows[a].status
            == IncidentStatus::Active && #[trigger] rows[b].status == IncidentStatus::Active ==> a
            == b
}

/// `pos` is the Active row of `rows`, or `None` when no row is Active.
pub open spec fn locates_open(rows: Seq<Incident>, pos: Option<int>) -> bool {
    match pos {
        Some(p) => 0 <= p < rows.len() && rows[p].status == IncidentStatus::Active,
        None => forall|k: int| 0 <= k < rows.len() ==> #[trigger] rows[k].status != IncidentStatus::Active,
    }
}

pub open spec fn row_at(rows: Seq<Incident>, pos: Option<int>) -> Option<Incident> {
    match pos {
        Some(p) => Some(rows[p]),
        None => None,
    }
}

/// An alert never has two Active incidents: a tick that starts from the only
/// Active row of the alert's incidents, or from none, leaves at most one.
pub proof fn tick_keeps_single_active(
    rows: Seq<Incident>,
    pos: Option<int>,
    alert: Alert,
    should_warn: bool,
    should_crit: bool,
    result: Seq<char>,
    now: i64,
    new_id: i64,
    out: TickOutcome,
)
    requires
        single_active(rows),
        locates_open(rows, pos),
        tick_post(row_at(rows, pos), alert, should_warn, should_crit, result, now, new_id, out),
    ensures
        single_active(after_tick(rows, pos, out.record)),
{
    let next = after_tick(rows, pos, out.record);
    assert forall|a: int, b: int|
        0 <= a < next.len() && 0 <= b < next.len() && #[trigger] next[a].status
            == IncidentStatus::Active && #[trigger] next[b].status == IncidentStatus::Active implies a
            == b by {
        match out.record {
            None => {},
            Some(n) => match pos {
                Some(p) => {
                    if a != p {
                        assert(rows[a].status == IncidentStatus::Active);
                    }
                    if b != p {
                        assert(rows[b].status == IncidentStatus::Active);
                    }
                },
                None => {
                    if a < rows.len() {
                        assert(rows[a].status == IncidentStatus::Active);
                    }
                    if b < rows.len() {
                        assert(rows[b].status == IncidentStatus::Active);
                    }
                },
            },
        }
    }
}

/// Two ticks in a row that fire nothing, on an alert with no open incident,
/// write nothing and send no mail.
pub proof fn quiet_ticks_are_silent(
    rows: Seq<Incident>,
    alert: Alert,
    result1: Seq<char>,
    result2: Seq<char>,
    now1: i64,
    now2: i64,
    id1: i64,
    id2: i64,
    out1: TickOutcome,
    out2: TickOutcome,
)
    requires
        locates_open(rows, None),
        tick_post(None, alert, false, false, result1, now1, id1, out1),
        tick_post(None, alert, false, false, result2, now2, id2, out2),
    ensures
        out1.record is None,
        out1.notification is None,
        out2.record is None,
        out2.notification is None,
        locates_open(after_tick(rows, None, out1.record), None),
        after_tick(after_tick(rows, None, out1.record), None, out2.record) == rows,
{
}

/// Two ticks in a row that fire at the severity of the open incident only
/// update its observation and time, and send no mail.
pub proof fn steady_ticks_only_refresh(
    open: Incident,
    alert: Alert,
    should_warn: bool,
    should_crit: bool,
    result1: Seq<char>,
    result2: Seq<char>,
    now1: i64,
    now2: i64,
    id1: i64,
    id2: i64,
    out1: TickOutcome,
    out2: TickOutcome,
)
    requires
        open.status == IncidentStatus::Active,
        firing_severity(should_warn, should_crit) == Some(open.severity),
        tick_post(Some(open), alert, should_warn, should_crit, result1, now1, id1, out1),
        tick_post(out1.record, alert, should_warn, should_crit, result2, now2, id2, out2),
    ensures
        out1.action == TickAction::Refresh(None),
        out1.notification is None,
        out1.record matches Some(n) && same_incident(n, open) && n.severity == open.severity
            && n.status == IncidentStatus::Active && n.result@ == result1 && n.updated_at == now1,
        out2.action == TickAction::Refresh(None),
        out2.notification is None,
        out2.record matches Some(m) && same_incident(m, open) && m.severity == open.severity
            && m.status == IncidentStatus::Active && m.result@ == result2 && m.updated_at == now2,
{
}

} // verus!
