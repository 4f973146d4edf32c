//! What an incident mail says: which of the three templates, its subject,
//! and the fields the template shows, dates already formatted.

use vstd::prelude::*;
use vstd::string::StringExecFns;

use crate::incident::Incident;
use crate::incident::IncidentStatus;
use crate::incident::Notification;
use crate::incident::Severity;

verus! {

/// Layout of the dates in a mail body.
pub const DATE_FORMAT: &'static str = "%Y-%m-%d %H:%M:%S";

/// Layout of the date in a mail subject.
pub const DATE_SMALL_FORMAT: &'static str = "%d %b %Y at %H:%M";

/// The UTC date `secs` seconds after the epoch, laid out by `layout` as
/// `chrono` formats it, or `None` where chrono has no such date.
pub uninterp spec fn date_text(secs: int, layout: Seq<char>) -> Option<Seq<char>>;

/// Relies on `chrono::DateTime::from_timestamp` and `DateTime::format`: the
/// text depends on `secs` and `layout` alone (UTC, no locale). Only the two
/// layouts of this module are passed, so formatting cannot fail.
#[verifier::external_body]
fn format_timestamp(secs: i64, layout: &str) -> (r: Option<String>)
    requires
        layout@ == DATE_FORMAT@ || layout@ == DATE_SMALL_FORMAT@,
    ensures
        match date_text(secs as int, layout@) {
            Some(t) => r matches Some(s) && s@ == t,
            None => r is None,
        },
{
    match chrono::DateTime::from_timestamp(secs, 0) {
        Some(d) => Some(d.format(layout).to_string()),
        None => None,
    }
}

/// The date shown for `secs`: empty where there is no such date.
pub open spec fn shown_date(secs: int, layout: Seq<char>) -> Seq<char> {
    match date_text(secs, layout) {
        Some(t) => t,
        None => Seq::empty(),
    }
}

fn show_date(secs: i64, layout: &str) -> (r: String)
    requires
        layout@ == DATE_FORMAT@ || layout@ == DATE_SMALL_FORMAT@,
    ensures
        r@ == shown_date(secs as int, layout@),
{
    match format_timestamp(secs, layout) {
        Some(s) => s,
        None => String::new(),
    }
}

/// The template of a mail: escalation, opening or resolution.
pub open spec fn template_for(escalate: bool, status: IncidentStatus) -> Notification {
    if escalate {
        Notification::Escalated
    } else if status == IncidentStatus::Active {
        Notification::Opened
    } else {
        Notification::Resolved
    }
}

/// The template of a mail about an incident in `status`.
pub fn mail_template(escalate: bool, status: IncidentStatus) -> (r: Notification)
    ensures
        r == template_for(escalate, status),
{
    if escalate {
        Notification::Escalated
    } else {
        match status {
            IncidentStatus::Active => Notification::Opened,
            IncidentStatus::Resolved => Notification::Resolved,
        }
    }
}

/// The fields a mail shows. `date` is the start for an opening, the last
/// update otherwise (the resolution time for a resolution).
pub struct MailContent {
    pub template: Notification,
    pub subject: String,
    pub alert_name: String,
    pub hostname: String,
    pub severity: String,
    pub date: String,
    pub lookup: String,
    pub result: String,
    pub warn: String,
    pub crit: String,
}

/// `{hostname} [{alert_name}] - {started_at}`, the date in the short layout.
pub open spec fn subject_text(i: Incident) -> Seq<char> {
    i.hostname@ + " ["@ + i.alerts_name@ + "] - "@ + shown_date(
        i.started_at as int,
        DATE_SMALL_FORMAT@,
    )
}

pub open spec fn severity_text(s: Severity) -> Seq<char> {
    if s == Severity::Warning {
        "Warning"@
    } else {
        "Critical"@
    }
}

/// The subject of a mail about incident `i`.
pub fn mail_subject(i: &Incident) -> (r: String)
    ensures
        r@ == subject_text(*i),
{
    let mut s = i.hostname.clone();
    s.append(" [");
    s.append(i.alerts_name.as_str());
    s.append("] - ");
    let d = show_date(i.started_at, DATE_SMALL_FORMAT);
    s.append(d.as_str());
    s
}

/// The mail about incident `i`; `escalate` marks a raised severity.
pub fn compose_mail(i: &Incident, escalate: bool) -> (r: MailContent)
    ensures
        r.template == template_for(escalate, i.status),
        r.subject@ == subject_text(*i),
        r.alert_name == i.alerts_name,
        r.hostname == i.hostname,
        r.severity@ == severity_text(i.severity),
        r.date@ == (if r.template == Notification::Opened {
            shown_date(i.started_at as int, DATE_FORMAT@)
        } else {
            shown_date(i.updated_at as int, DATE_FORMAT@)
        }),
        r.lookup == i.alerts_lookup,
        r.result == i.result,
        r.warn == i.alerts_warn,
        r.crit == i.alerts_crit,
{
    let template = mail_template(escalate, i.status);
    let when = match template {
        Notification::Opened => i.started_at,
        _ => i.updated_at,
    };
    MailContent {
        template,
        subject: mail_subject(i),
        alert_name: i.alerts_name.clone(),
        hostname: i.hostname.clone(),
        severity: String::from_str(i.severity.as_str()),
        date: show_date(when, DATE_FORMAT),
        lookup: i.alerts_lookup.clone(),
        result: i.result.clone(),
        warn: i.alerts_warn.clone(),
        crit: i.alerts_crit.clone(),
    }
}

} // verus!
