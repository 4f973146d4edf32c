use speculare_alerts::alert::Alert;
use speculare_alerts::monitor::Monitor;
use speculare_alerts::monitor::WholeAlert;
use speculare_alerts::query::QueryError;
use speculare_alerts::query::QueryType;
use speculare_alerts::supervise::after_disconnect;
use speculare_alerts::supervise::msg_err_handler;
use speculare_alerts::supervise::pool_min_idle;
use speculare_alerts::supervise::Reconnect;
use speculare_alerts::supervise::StreamError;

fn alert(id: i64, lookup: &str, active: bool) -> Alert {
    Alert {
        id,
        name: String::from("a"),
        table: String::from("t"),
        lookup: String::from(lookup),
        timing: 60,
        warn: String::from("$this > 1"),
        crit: String::from("$this > 2"),
        info: None,
        host_uuid: String::from("h"),
        hostname: String::from("host"),
        where_clause: None,
        active,
    }
}

#[test]
fn all_alerts_compile_and_active_ones_start() {
    let alerts = vec![
        alert(1, "avg abs 5m of a", true),
        alert(2, "sum pct 1h of a over b", false),
        alert(3, "min abs 1d of c", true),
    ];
    let m = Monitor::default(&alerts).unwrap();
    assert_eq!(m.alerts.len(), 3);
    assert_eq!(m.alerts[1].qtype, QueryType::Pct);
    let started = m.oneshot();
    let ids: Vec<i64> = started.iter().map(|w| w.inner.id).collect();
    assert_eq!(ids, vec![1, 3]);
    assert!(started[1].query.contains("min(c)::float8 AS value"));
}

#[test]
fn first_failing_alert_stops_the_start() {
    let alerts = vec![
        alert(1, "avg abs 5m of a", true),
        alert(2, "avg abs 5m", true),
        alert(3, "bad abs 5m of a", true),
    ];
    assert_eq!(
        Monitor::default(&alerts).err(),
        Some((2, QueryError::MalformedLookup))
    );
}

#[test]
fn whole_alert_keeps_the_alert() {
    let w = WholeAlert::compile(alert(9, "count abs 10m of hits", true)).unwrap();
    assert_eq!(w.inner.id, 9);
    assert_eq!(w.qtype, QueryType::Abs);
    assert!(WholeAlert::compile(alert(9, "count abs 10 of hits", true)).is_err());
}

#[test]
fn stream_errors_are_classified() {
    assert_eq!(msg_err_handler(StreamError::ConnectionClosed), Err(StreamError::ConnectionClosed));
    assert_eq!(msg_err_handler(StreamError::AlreadyClosed), Err(StreamError::AlreadyClosed));
    assert_eq!(msg_err_handler(StreamError::Io), Err(StreamError::Io));
    assert_eq!(msg_err_handler(StreamError::Protocol), Ok(()));
}

#[test]
fn third_lost_connection_gives_up() {
    assert_eq!(after_disconnect(0), Reconnect::Retry { wait_secs: 5, failures: 1 });
    assert_eq!(after_disconnect(1), Reconnect::Retry { wait_secs: 5, failures: 2 });
    assert_eq!(after_disconnect(2), Reconnect::GiveUp);
    assert_eq!(after_disconnect(u32::MAX), Reconnect::GiveUp);
}

#[test]
fn pool_keeps_a_tenth_idle() {
    assert_eq!(pool_min_idle(50), 5);
    assert_eq!(pool_min_idle(16), 1);
    assert_eq!(pool_min_idle(9), 0);
    assert_eq!(pool_min_idle(u32::MAX), 429_496_729);
}
