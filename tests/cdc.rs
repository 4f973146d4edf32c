use speculare_alerts::alert::generate_id;
use speculare_alerts::alert::Alert;
use speculare_alerts::cdc::alert_from_change;
use speculare_alerts::cdc::alerts_to_stop;
use speculare_alerts::cdc::host_from_change;
use speculare_alerts::cdc::prepare_change;
use speculare_alerts::cdc::CdcChange;
use speculare_alerts::cdc::CdcValue;
use speculare_alerts::cdc::ChangeError;
use speculare_alerts::query::QueryError;
use speculare_alerts::query::QueryType;
use speculare_alerts::registry::CdcKind;
use speculare_alerts::registry::TaskRegistry;

fn alert_row(kind: CdcKind, lookup: &str, timing: i32) -> CdcChange {
    let names = [
        "id", "name", "table", "lookup", "timing", "warn", "crit", "info", "host_uuid",
        "hostname", "where_clause", "active",
    ];
    CdcChange {
        columnnames: names.iter().map(|n| String::from(*n)).collect(),
        columnvalues: vec![
            CdcValue::Number(12),
            CdcValue::Text(String::from("cpu_high")),
            CdcValue::Text(String::from("cpu_stats")),
            CdcValue::Text(String::from(lookup)),
            CdcValue::Number(timing),
            CdcValue::Text(String::from("$this > 50")),
            CdcValue::Text(String::from("$this > 80")),
            CdcValue::Null,
            CdcValue::Text(String::from("host-a")),
            CdcValue::Text(String::from("web-1")),
            CdcValue::Text(String::from("cpu = 'all'")),
            CdcValue::Boolean(true),
        ],
        kind,
        table: String::from("alerts"),
    }
}

#[test]
fn alert_is_rebuilt_from_a_row() {
    let a = alert_from_change(&alert_row(CdcKind::Insert, "avg abs 5m of usage", 60)).unwrap();
    assert_eq!(a.id, 12);
    assert_eq!(a.name, "cpu_high");
    assert_eq!(a.table, "cpu_stats");
    assert_eq!(a.timing, 60);
    assert_eq!(a.info, None);
    assert_eq!(a.where_clause, Some(String::from("cpu = 'all'")));
    assert_eq!(a.host_uuid, "host-a");
    assert!(a.active);
}

#[test]
fn missing_or_mistyped_column_drops_the_row() {
    let mut row = alert_row(CdcKind::Insert, "avg abs 5m of usage", 60);
    row.columnnames.remove(0);
    row.columnvalues.remove(0);
    assert!(alert_from_change(&row).is_none());

    let mut row = alert_row(CdcKind::Insert, "avg abs 5m of usage", 60);
    row.columnvalues[4] = CdcValue::Text(String::from("60"));
    assert!(alert_from_change(&row).is_none());
}

#[test]
fn absent_nullable_columns_read_as_none() {
    let mut row = alert_row(CdcKind::Insert, "avg abs 5m of usage", 60);
    row.columnnames.truncate(10);
    row.columnnames.push(String::from("active"));
    row.columnvalues.truncate(10);
    row.columnvalues.push(CdcValue::Boolean(false));
    let a = alert_from_change(&row).unwrap();
    assert_eq!(a.where_clause, None);
    assert!(!a.active);
}

#[test]
fn first_column_of_a_name_wins() {
    let mut row = alert_row(CdcKind::Insert, "avg abs 5m of usage", 60);
    row.columnnames.push(String::from("name"));
    row.columnvalues.push(CdcValue::Text(String::from("other")));
    assert_eq!(alert_from_change(&row).unwrap().name, "cpu_high");
}

#[test]
fn prepared_change_carries_the_query() {
    let (a, sql, kind) = prepare_change(&alert_row(CdcKind::Update, "avg abs 5m of usage", 5))
        .unwrap();
    assert_eq!(a.timing, 5);
    assert_eq!(kind, QueryType::Abs);
    assert!(sql.starts_with("SELECT time_bucket('5m', created_at) AS time, avg(usage)::float8"));
    assert!(sql.contains("AND cpu = 'all' GROUP BY"));
}

#[test]
fn change_that_does_not_compile_is_dropped() {
    let r = prepare_change(&alert_row(CdcKind::Insert, "avg abs 5m", 60));
    assert_eq!(r.err(), Some(ChangeError::Compile(QueryError::MalformedLookup)));
    let mut row = alert_row(CdcKind::Insert, "avg abs 5m of usage", 60);
    row.columnvalues[0] = CdcValue::Null;
    assert_eq!(prepare_change(&row).err(), Some(ChangeError::Malformed));
}

#[test]
fn host_is_read_from_its_values() {
    let row = CdcChange {
        columnnames: vec![String::from("uuid"), String::from("hostname")],
        columnvalues: vec![CdcValue::Text(String::from("H")), CdcValue::Text(String::from("db-1"))],
        kind: CdcKind::Insert,
        table: String::from("hosts"),
    };
    let h = host_from_change(&row).unwrap();
    assert_eq!(h.uuid, "H");
    assert_eq!(h.hostname, "db-1");
    let empty = CdcChange {
        columnnames: vec![String::from("uuid")],
        columnvalues: vec![CdcValue::Text(String::from("H"))],
        kind: CdcKind::Insert,
        table: String::from("hosts"),
    };
    assert!(host_from_change(&empty).is_none());
}

fn running(id: i64, host: &str) -> Alert {
    Alert {
        id,
        name: String::from("n"),
        table: String::from("t"),
        lookup: String::from("avg abs 5m of c"),
        timing: 60,
        warn: String::from("$this > 1"),
        crit: String::from("$this > 2"),
        info: None,
        host_uuid: String::from(host),
        hostname: String::from("h"),
        where_clause: None,
        active: true,
    }
}

#[test]
fn deleted_host_stops_its_alerts() {
    let alerts = vec![running(1, "A"), running(2, "B"), running(3, "A")];
    assert_eq!(alerts_to_stop(&alerts, &String::from("A")), vec![1, 3]);
    assert_eq!(alerts_to_stop(&alerts, &String::from("C")), Vec::<i64>::new());
}

#[test]
fn update_replaces_the_task_under_the_same_id() {
    let mut reg: TaskRegistry<&str> = TaskRegistry::new();
    assert_eq!(reg.start(12, "every 60s"), None);
    let cancelled = reg.apply_change(CdcKind::Update, 12, Some("every 5s"));
    assert_eq!(cancelled, Some("every 60s"));
    assert!(reg.is_running(12));
    assert_eq!(reg.stop(12), Some("every 5s"));
    assert!(!reg.is_running(12));
}

#[test]
fn insert_and_delete_changes() {
    let mut reg: TaskRegistry<u32> = TaskRegistry::new();
    assert_eq!(reg.apply_change(CdcKind::Insert, 1, Some(10)), None);
    assert_eq!(reg.apply_change(CdcKind::Insert, 1, Some(11)), Some(10));
    assert_eq!(reg.apply_change(CdcKind::Delete, 1, None), Some(11));
    assert!(!reg.is_running(1));
    assert_eq!(reg.stop(1), None);
}

#[test]
fn new_host_alert_id_matches_the_expansion() {
    assert_eq!(generate_id("H", "disk_full"), generate_id("H", "disk_full"));
}
