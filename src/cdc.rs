//! Decoding of change-feed messages: a row arrives as parallel arrays of
//! column names and untagged scalar values.

use vstd::prelude::*;

use crate::alert::Alert;
use crate::alert::Host;
use crate::query::compiled;
use crate::query::QueryError;
use crate::query::QueryType;
use crate::registry::CdcKind;
use crate::text::str_eq;

verus! {

/// One column value of a change message.
#[derive(Debug)]
pub enum CdcValue {
    Boolean(bool),
    Number(i32),
    Text(String),
    Null,
}

/// A change message: the kind of change, the table, and the row as names and
/// values at matching positions.
pub struct CdcChange {
    pub columnnames: Vec<String>,
    pub columnvalues: Vec<CdcValue>,
    pub kind: CdcKind,
    pub table: String,
}

/// Why a change of the alerts table was dropped.
#[derive(Debug, PartialEq, Eq, Clone, Copy, Structural)]
pub enum ChangeError {
    /// A column is missing or holds a value of the wrong type.
    Malformed,
    /// The alert's lookup does not compile.
    Compile(QueryError),
}

/// The position of the first column named `name`, or -1.
pub open spec fn column_index(names: Seq<String>, name: Seq<char>) -> int
    decreases names.len(),
{
    if names.len() == 0 {
        -1
    } else {
        let f = column_index(names.drop_last(), name);
        if f >= 0 {
            f
        } else if names.last()@ == name {
            names.len() - 1
        } else {
            -1
        }
    }
}

/// The value of the first column named `name`, if there is one.
pub open spec fn column(c: CdcChange, name: Seq<char>) -> Option<CdcValue> {
    let k = column_index(c.columnnames@, name);
    if 0 <= k < c.columnvalues@.len() {
        Some(c.columnvalues@[k])
    } else {
        None
    }
}

pub open spec fn text_of(v: Option<CdcValue>) -> Option<String> {
    match v {
        Some(CdcValue::Text(s)) => Some(s),
        _ => None,
    }
}

pub open spec fn number_of(v: Option<CdcValue>) -> Option<i32> {
    match v {
        Some(CdcValue::Number(n)) => Some(n),
        _ => None,
    }
}

pub open spec fn flag_of(v: Option<CdcValue>) -> Option<bool> {
    match v {
        Some(CdcValue::Boolean(b)) => Some(b),
        _ => None,
    }
}

/// A nullable text column: absent and null both read as no text.
pub open spec fn optional_text_of(v: Option<CdcValue>) -> Option<Option<String>> {
    match v {
        Some(CdcValue::Text(s)) => Some(Some(s)),
        Some(CdcValue::Null) => Some(None),
        None => Some(None),
        _ => None,
    }
}

/// The alert a change of the alerts table carries, when every column is
/// there with the right type.
pub open spec fn alert_of_change(c: CdcChange) -> Option<Alert> {
    let id = number_of(column(c, "id"@));
    let name = text_of(column(c, "name"@));
    let table = text_of(column(c, "table"@));
    let lookup = text_of(column(c, "lookup"@));
    let timing = number_of(column(c, "timing"@));
    let warn = text_of(column(c, "warn"@));
    let crit = text_of(column(c, "crit"@));
    let info = optional_text_of(column(c, "info"@));
    let host_uuid = text_of(column(c, "host_uuid"@));
    let hostname = text_of(column(c, "hostname"@));
    let where_clause = optional_text_of(column(c, "where_clause"@));
    let active = flag_of(column(c, "active"@));
    if id is Some && name is Some && table is Some && lookup is Some && timing is Some
        && warn is Some && crit is Some && info is Some && host_uuid is Some && hostname is Some
        && where_clause is Some && active is Some {
        Some(
            Alert {
                id: id->Some_0 as i64,
                name: name->Some_0,
                table: table->Some_0,
                lookup: lookup->Some_0,
                timing: timing->Some_0,
                warn: warn->Some_0,
                crit: crit->Some_0,
                info: info->Some_0,
                host_uuid: host_uuid->Some_0,
                hostname: hostname->Some_0,
                where_clause: where_clause->Some_0,
                active: active->Some_0,
            },
        )
    } else {
        None
    }
}

/// The host a change of the hosts table carries, when its `uuid` and
/// `hostname` columns hold text.
pub open spec fn host_of_change(c: CdcChange) -> Option<Host> {
    let uuid = text_of(column(c, "uuid"@));
    let hostname = text_of(column(c, "hostname"@));
    if uuid is Some && hostname is Some {
        Some(Host { uuid: uuid->Some_0, hostname: hostname->Some_0 })
    } else {
        None
    }
}

/// The value of the first column named `name`, if there is one.
fn find_column<'a>(c: &'a CdcChange, name: &str) -> (r: Option<&'a CdcValue>)
    ensures
        match column(*c, name@) {
            Some(v) => r matches Some(x) && *x == v,
            None => r is None,
        },
{
    let mut i: usize = 0;
    while i < c.columnnames.len()
        invariant
            i <= c.columnnames@.len(),
            column_index(c.columnnames@.take(i as int), name@) == -1,
        decreases c.columnnames@.len() - i,
    {
        assert(c.columnnames@.take(i + 1).drop_last() =~= c.columnnames@.take(i as int));
        if str_eq(c.columnnames[i].as_str(), name) {
            assert(column_index(c.columnnames@.take(i + 1), name@) == i);
            proof {
                lemma_index_prefix(c.columnnames@, name@, i + 1);
            }
            if i < c.columnvalues.len() {
                return Some(&c.columnvalues[i]);
            } else {
                return None;
            }
        }
        i = i + 1;
    }
    assert(c.columnnames@.take(i as int) =~= c.columnnames@);
    None
}

proof fn lemma_index_prefix(names: Seq<String>, name: Seq<char>, k: int)
    requires
        0 <= k <= names.len(),
        column_index(names.take(k), name) >= 0,
    ensures
        column_index(names, name) == column_index(names.take(k), name),
    decreases names.len(),
{
    if k == names.len() {
        assert(names.take(k) =~= names);
    } else {
        assert(names.drop_last().take(k) =~= names.take(k));
        lemma_index_prefix(names.drop_last(), name, k);
    }
}

fn read_text(c: &CdcChange, name: &str) -> (r: Option<String>)
    ensures
        r == text_of(column(*c, name@)),
{
    match find_column(c, name) {
        Some(CdcValue::Text(s)) => Some(s.clone()),
        _ => None,
    }
}

fn read_number(c: &CdcChange, name: &str) -> (r: Option<i32>)
    ensures
        r == number_of(column(*c, name@)),
{
    match find_column(c, name) {
        Some(CdcValue::Number(n)) => Some(*n),
        _ => None,
    }
}

fn read_flag(c: &CdcChange, name: &str) -> (r: Option<bool>)
    ensures
        r == flag_of(column(*c, name@)),
{
    match find_column(c, name) {
        Some(CdcValue::Boolean(b)) => Some(*b),
        _ => None,
    }
}

fn read_optional_text(c: &CdcChange, name: &str) -> (r: Option<Option<String>>)
    ensures
        r == optional_text_of(column(*c, name@)),
{
    match find_column(c, name) {
        Some(CdcValue::Text(s)) => Some(Some(s.clone())),
        Some(CdcValue::Null) => Some(None),
        None => Some(None),
        _ => None,
    }
}

/// Rebuilds the alert that a change of the alerts table carries.
pub fn alert_from_change(c: &CdcChange) -> (r: Option<Alert>)
    ensures
        r == alert_of_change(*c),
{
    let id = read_number(c, "id");
    let name = read_text(c, "name");
    let table = read_text(c, "table");
    let lookup = read_text(c, "lookup");
    let timing = read_number(c, "timing");
    let warn = read_text(c, "warn");
    let crit = read_text(c, "crit");
    let info = read_optional_text(c, "info");
    let host_uuid = read_text(c, "host_uuid");
    let hostname = read_text(c, "hostname");
    let where_clause = read_optional_text(c, "where_clause");
    let active = read_flag(c, "active");
    match (id, name, table, lookup, timing, warn, crit, info, host_uuid, hostname) {
        (
            Some(id),
            Some(name),
            Some(table),
            Some(lookup),
            Some(timing),
            Some(warn),
            Some(crit),
            Some(info),
            Some(host_uuid),
            Some(hostname),
        ) => match (where_clause, active) {
            (Some(where_clause), Some(active)) => Some(
                Alert {
                    id: id as i64,
                    name,
                    table,
                    lookup,
                    timing,
                    warn,
                    crit,
                    info,
                    host_uuid,
                    hostname,
                    where_clause,
                    active,
                },
            ),
            _ => None,
        },
        _ => None,
    }
}

/// Reads the host that a change of the hosts table carries.
pub fn host_from_change(c: &CdcChange) -> (r: Option<Host>)
    ensures
        r == host_of_change(*c),
{
    let uuid = read_text(c, "uuid");
    let hostname = read_text(c, "hostname");
    match (uuid, hostname) {
        (Some(uuid), Some(hostname)) => Some(Host { uuid, hostname }),
        _ => None,
    }
}

/// What a change of the alerts table gives: the alert with its compiled
/// query, or why the change is dropped.
pub open spec fn prepared_post(
    c: CdcChange,
    r: Result<(Alert, String, QueryType), ChangeError>,
) -> bool {
    match alert_of_change(c) {
        None => r == Err::<(Alert, String, QueryType), ChangeError>(ChangeError::Malformed),
        Some(a) => match compiled(a) {
            Ok(p) => r matches Ok(t) && t.0 == a && t.1@ == p.0 && t.2 == p.1,
            Err(e) => r == Err::<(Alert, String, QueryType), ChangeError>(ChangeError::Compile(e)),
        },
    }
}

/// Decodes a change of the alerts table and compiles the alert's query.
pub fn prepare_change(c: &CdcChange) -> (r: Result<(Alert, String, QueryType), ChangeError>)
    ensures
        prepared_post(*c, r),
{
    match alert_from_change(c) {
        None => Err(ChangeError::Malformed),
        Some(a) => {
            let q = a.construct_query();
            match q {
                Ok((sql, kind)) => Ok((a, sql, kind)),
                Err(e) => Err(ChangeError::Compile(e)),
            }
        },
    }
}

/// The ids, in order, of the alerts in `running` that watch host `host_uuid`.
pub open spec fn ids_on_host(running: Seq<Alert>, host_uuid: Seq<char>) -> Seq<i64>
    decreases running.len(),
{
    if running.len() == 0 {
        Seq::empty()
    } else {
        ids_on_host(running.drop_last(), host_uuid) + if running.last().host_uuid@ == host_uuid {
            seq![running.last().id]
        } else {
            Seq::empty()
        }
    }
}

/// The ids of the running alerts that watch a host that was deleted.
pub fn alerts_to_stop(running: &Vec<Alert>, host_uuid: &String) -> (r: Vec<i64>)
    ensures
        r@ == ids_on_host(running@, host_uuid@),
{
    let mut out: Vec<i64> = Vec::new();
    let mut i: usize = 0;
    assert(running@.take(0) =~= Seq::<Alert>::empty());
    while i < running.len()
        invariant
            i <= running@.len(),
            out@ == ids_on_host(running@.take(i as int), host_uuid@),
        decreases running@.len() - i,
    {
        assert(running@.take(i + 1).drop_last() =~= running@.take(i as int));
        assert(running@.take(i + 1).last() == running@[i as int]);
        if running[i].host_uuid == *host_uuid {
            out.push(running[i].id);
        }
        assert(out@ =~= ids_on_host(running@.take(i + 1), host_uuid@));
        i = i + 1;
    }
    assert(running@.take(i as int) =~= running@);
    out
}

} // verus!
