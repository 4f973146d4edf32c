use speculare_alerts::incident::Incident;
use speculare_alerts::incident::IncidentStatus;
use speculare_alerts::incident::Notification;
use speculare_alerts::incident::Severity;
use speculare_alerts::mail::compose_mail;
use speculare_alerts::mail::mail_subject;
use speculare_alerts::mail::mail_template;

// 2021-07-23 17:51:00 UTC
const STARTED: i64 = 1_627_062_660;

fn incident(status: IncidentStatus) -> Incident {
    Incident {
        id: 3,
        alerts_id: 42,
        host_uuid: String::from("host-a"),
        hostname: String::from("web-1"),
        status,
        severity: Severity::Critical,
        result: String::from("91.5"),
        started_at: STARTED,
        updated_at: STARTED + 3_725,
        resolved_at: if status == IncidentStatus::Resolved { Some(STARTED + 3_725) } else { None },
        alerts_name: String::from("cpu_high"),
        alerts_lookup: String::from("avg abs 5m of usage_user"),
        alerts_warn: String::from("$this > 50"),
        alerts_crit: String::from("$this > 80"),
        alerts_info: None,
    }
}

#[test]
fn subject_uses_the_short_layout() {
    assert_eq!(
        mail_subject(&incident(IncidentStatus::Active)),
        "web-1 [cpu_high] - 23 Jul 2021 at 17:51"
    );
}

#[test]
fn opened_mail_shows_the_start() {
    let m = compose_mail(&incident(IncidentStatus::Active), false);
    assert_eq!(m.template, Notification::Opened);
    assert_eq!(m.date, "2021-07-23 17:51:00");
    assert_eq!(m.severity, "Critical");
    assert_eq!(m.result, "91.5");
    assert_eq!(m.lookup, "avg abs 5m of usage_user");
}

#[test]
fn escalated_and_resolved_mails_show_the_update() {
    let m = compose_mail(&incident(IncidentStatus::Active), true);
    assert_eq!(m.template, Notification::Escalated);
    assert_eq!(m.date, "2021-07-23 18:53:05");
    let r = compose_mail(&incident(IncidentStatus::Resolved), false);
    assert_eq!(r.template, Notification::Resolved);
    assert_eq!(r.date, "2021-07-23 18:53:05");
    assert_eq!(r.subject, "web-1 [cpu_high] - 23 Jul 2021 at 17:51");
}

#[test]
fn template_selection() {
    assert_eq!(mail_template(true, IncidentStatus::Resolved), Notification::Escalated);
    assert_eq!(mail_template(false, IncidentStatus::Active), Notification::Opened);
    assert_eq!(mail_template(false, IncidentStatus::Resolved), Notification::Resolved);
}

#[test]
fn date_out_of_range_is_left_empty() {
    let mut i = incident(IncidentStatus::Active);
    i.started_at = i64::MAX;
    assert_eq!(mail_subject(&i), "web-1 [cpu_high] - ");
}
