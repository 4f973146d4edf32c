use speculare_alerts::alert::Alert;
use speculare_alerts::query::disallowed_statement;
use speculare_alerts::query::find_disallowed;
use speculare_alerts::query::QueryError;
use speculare_alerts::query::QueryType;

fn alert(lookup: &str, where_clause: Option<&str>) -> Alert {
    Alert {
        id: 1,
        name: String::from("cpu_high"),
        table: String::from("cpu_stats"),
        lookup: String::from(lookup),
        timing: 60,
        warn: String::from("$this > 50"),
        crit: String::from("$this > 80"),
        info: None,
        host_uuid: String::from("b7f3a1"),
        hostname: String::from("web-1"),
        where_clause: where_clause.map(String::from),
        active: true,
    }
}

#[test]
fn abs_lookup_compiles_to_the_template() {
    let (sql, kind) = alert("avg abs 5m of cpu", None).construct_query().unwrap();
    assert_eq!(
        sql,
        "SELECT time_bucket('5m', created_at) AS time, avg(cpu)::float8 AS value FROM cpu_stats \
         WHERE host_uuid = $1 AND created_at > now() at time zone 'utc' - INTERVAL '5m' \
         GROUP BY time ORDER BY time DESC"
    );
    assert_eq!(kind, QueryType::Abs);
}

#[test]
fn pct_lookup_has_numerator_and_divisor() {
    let (sql, kind) = alert("sum pct 1h of used,cached over total", None)
        .construct_query()
        .unwrap();
    assert_eq!(
        sql,
        "SELECT time_bucket('1h', created_at) AS time, sum(used)::float8 + sum(cached)::float8 \
         AS numerator, sum(total)::float8 AS divisor FROM cpu_stats WHERE host_uuid = $1 AND \
         created_at > now() at time zone 'utc' - INTERVAL '1h' GROUP BY time ORDER BY time DESC"
    );
    assert_eq!(kind, QueryType::Pct);
}

#[test]
fn several_columns_are_added() {
    let (sql, _) = alert("max abs 10m of user,system,iowait", None)
        .construct_query()
        .unwrap();
    assert!(sql.contains(
        "max(user)::float8 + max(system)::float8 + max(iowait)::float8 AS value"
    ));
}

#[test]
fn where_clause_is_appended() {
    let (sql, _) = alert("count abs 1d of errors", Some("level = 'error'"))
        .construct_query()
        .unwrap();
    assert!(sql.ends_with(
        "INTERVAL '1d' AND level = 'error' GROUP BY time ORDER BY time DESC"
    ));
}

#[test]
fn short_lookup_is_rejected() {
    assert_eq!(
        alert("avg abs 5m of", None).construct_query(),
        Err(QueryError::MalformedLookup)
    );
    assert_eq!(alert("", None).construct_query(), Err(QueryError::MalformedLookup));
}

#[test]
fn token_counts_follow_the_mode() {
    assert_eq!(
        alert("avg pct 5m of used", None).construct_query(),
        Err(QueryError::WrongTokenCount)
    );
    assert_eq!(
        alert("avg pct 5m of used over total extra", None).construct_query(),
        Err(QueryError::WrongTokenCount)
    );
    assert_eq!(
        alert("avg abs 5m of used over", None).construct_query(),
        Err(QueryError::WrongTokenCount)
    );
    assert_eq!(
        alert("avg abs 5m of cpu ", None).construct_query(),
        Err(QueryError::WrongTokenCount)
    );
}

#[test]
fn unknown_mode_is_rejected() {
    assert_eq!(
        alert("avg rel 5m of cpu", None).construct_query(),
        Err(QueryError::UnknownMode)
    );
}

#[test]
fn unknown_aggregation_is_rejected() {
    assert_eq!(
        alert("median abs 5m of cpu", None).construct_query(),
        Err(QueryError::UnknownAggregation)
    );
}

#[test]
fn bad_interval_is_rejected() {
    assert_eq!(
        alert("avg abs 5 of cpu", None).construct_query(),
        Err(QueryError::BadInterval)
    );
    assert_eq!(
        alert("avg abs xyz of cpu", None).construct_query(),
        Err(QueryError::BadInterval)
    );
}

#[test]
fn interval_words_are_accepted() {
    assert!(alert("avg abs hour of cpu", None).construct_query().is_ok());
    assert!(alert("avg abs 15 minutes of cpu", None).construct_query().is_err());
    assert!(alert("avg abs 2d of cpu", None).construct_query().is_ok());
}

#[test]
fn disallowed_statement_in_where_clause() {
    let r = alert("avg abs 5m of cpu", Some("true; DROP TABLE users")).construct_query();
    assert_eq!(r, Err(QueryError::DisallowedStatement(4)));
    assert_eq!(disallowed_statement(4), "DROP");
}

#[test]
fn deny_list_ignores_case_of_the_source() {
    let r = alert("avg abs 5m of cpu", Some("x = 1; delete from hosts")).construct_query();
    assert_eq!(r, Err(QueryError::DisallowedStatement(0)));
}

#[test]
fn created_at_is_not_a_disallowed_statement() {
    let (sql, _) = alert("avg abs 5m of cpu", None).construct_query().unwrap();
    assert!(sql.contains("created_at"));
    assert_eq!(find_disallowed(&sql.to_uppercase()), None);
}

#[test]
fn find_disallowed_reports_the_first_listed() {
    assert_eq!(find_disallowed("SELECT 1"), None);
    assert_eq!(find_disallowed("ROLLBACK; DELETE"), Some(0));
    assert_eq!(find_disallowed("SAVEPOINT A"), Some(10));
    assert_eq!(disallowed_statement(11), "ROLLBACK");
}

#[test]
fn compiling_twice_gives_the_same_query() {
    let a = alert("avg pct 5m of used over total", Some("core = 0"));
    assert_eq!(a.construct_query(), a.construct_query());
}
