//! Compilation of an alert's lookup phrase into a parameterised SQL query.
//!
//! A lookup reads `<aggr> <mode> <interval> of <cols> [over <cols>]`, split
//! on single spaces: five tokens for `abs`, seven for `pct`.

use vstd::prelude::*;
use vstd::string::StrSliceExecFns;
use vstd::string::StringExecFns;

use crate::alert::Alert;
use crate::text::chars_of;
use crate::text::contains;
use crate::text::contains_exec;
use crate::text::span_is;
use crate::text::split_on;
use crate::text::split_spans;

verus! {

/// The shape of the rows a compiled query returns.
#[derive(Debug, PartialEq, Eq, Clone, Copy, Structural)]
pub enum QueryType {
    /// `numerator` and `divisor` columns; the observation is their ratio in percent.
    Pct,
    /// A single `value` column.
    Abs,
}

/// Why a lookup could not be compiled.
#[derive(Debug, PartialEq, Eq, Clone, Copy, Structural)]
pub enum QueryError {
    /// Fewer than five tokens.
    MalformedLookup,
    /// The second token is neither `abs` nor `pct`.
    UnknownMode,
    /// Not five tokens for `abs`, or not seven for `pct`.
    WrongTokenCount,
    /// The first token is not one of `avg`, `sum`, `min`, `max`, `count`.
    UnknownAggregation,
    /// The third token does not match the interval pattern.
    BadInterval,
    /// The generated query holds the deny-listed statement of this index.
    DisallowedStatement(usize),
}

/// What the interval token must match, somewhere in it.
pub const INTERVAL_PATTERN: &'static str = "(\\d+)([a-zA-Z ])|([mhd]|minutes|hours|days|minute|hour|day)";

/// Number of deny-listed statements.
pub const DENY_COUNT: usize = 12;

/// Whether the regular expression `pattern` matches somewhere in `s`.
pub uninterp spec fn pattern_matches(pattern: Seq<char>, s: Seq<char>) -> bool;

/// The upper-case form of `s`, as `str::to_uppercase` gives it.
pub uninterp spec fn upper_of(s: Seq<char>) -> Seq<char>;

/// Relies on `regex::Regex::new` and `regex::Regex::is_match`: whether the
/// compiled `pattern` matches somewhere in `s`, which depends on the two
/// strings alone. A pattern that does not compile matches nothing.
#[verifier::external_body]
fn regex_is_match(pattern: &str, s: &str) -> (r: bool)
    ensures
        r == pattern_matches(pattern@, s@),
{
    match regex::Regex::new(pattern) {
        Ok(re) => re.is_match(s),
        Err(_) => false,
    }
}

/// Relies on `str::to_uppercase`: the result depends on the characters alone.
#[verifier::external_body]
fn uppercase(s: &str) -> (r: String)
    ensures
        r@ == upper_of(s@),
{
    s.to_uppercase()
}

pub open spec fn mode_of(t: Seq<char>) -> Option<QueryType> {
    if t == "pct"@ {
        Some(QueryType::Pct)
    } else if t == "abs"@ {
        Some(QueryType::Abs)
    } else {
        None
    }
}

pub open spec fn token_count(m: QueryType) -> int {
    match m {
        QueryType::Pct => 7,
        QueryType::Abs => 5,
    }
}

pub open spec fn is_aggregation(t: Seq<char>) -> bool {
    t == "avg"@ || t == "sum"@ || t == "min"@ || t == "max"@ || t == "count"@
}

/// The first rule that the lookup tokens `t` break, in the order they are checked.
pub open spec fn lookup_error(t: Seq<Seq<char>>) -> Option<QueryError> {
    if t.len() < 5 {
        Some(QueryError::MalformedLookup)
    } else if mode_of(t[1]) is None {
        Some(QueryError::UnknownMode)
    } else if t.len() != token_count(mode_of(t[1])->Some_0) {
        Some(QueryError::WrongTokenCount)
    } else if !is_aggregation(t[0]) {
        Some(QueryError::UnknownAggregation)
    } else if !pattern_matches(INTERVAL_PATTERN@, t[2]) {
        Some(QueryError::BadInterval)
    } else {
        None
    }
}

/// `aggr(col)::float8`
pub open spec fn term(aggr: Seq<char>, col: Seq<char>) -> Seq<char> {
    aggr + "("@ + col + ")::float8"@
}

/// The terms of `cols` joined by ` + `.
pub open spec fn sum_of(aggr: Seq<char>, cols: Seq<Seq<char>>) -> Seq<char>
    decreases cols.len(),
{
    if cols.len() == 0 {
        Seq::empty()
    } else if cols.len() == 1 {
        term(aggr, cols[0])
    } else {
        sum_of(aggr, cols.drop_last()) + " + "@ + term(aggr, cols.last())
    }
}

pub open spec fn select_list(t: Seq<Seq<char>>, m: QueryType) -> Seq<char> {
    match m {
        QueryType::Abs => sum_of(t[0], split_on(t[4], ',')) + " AS value"@,
        QueryType::Pct => sum_of(t[0], split_on(t[4], ',')) + " AS numerator, "@ + sum_of(
            t[0],
            split_on(t[6], ','),
        ) + " AS divisor"@,
    }
}

pub open spec fn where_part(w: Option<String>) -> Seq<char> {
    match w {
        Some(c) => " AND "@ + c@,
        None => Seq::empty(),
    }
}

/// The query generated for alert `a` with lookup tokens `t` in mode `m`.
pub open spec fn query_text(a: Alert, t: Seq<Seq<char>>, m: QueryType) -> Seq<char> {
    "SELECT time_bucket('"@ + t[2] + "', created_at) AS time, "@ + select_list(t, m) + " FROM "@
        + a.table@ + " WHERE host_uuid = $1 AND created_at > now() at time zone 'utc' - INTERVAL '"@
        + t[2] + "'"@ + where_part(a.where_clause) + " GROUP BY time ORDER BY time DESC"@
}

/// The deny-listed statement keywords.
pub open spec fn deny_word(i: int) -> Seq<char> {
    if i == 0 {
        "DELETE"@
    } else if i == 1 {
        "UPDATE"@
    } else if i == 2 {
        "INSERT"@
    } else if i == 3 {
        "ALTER"@
    } else if i == 4 {
        "DROP"@
    } else if i == 5 {
        "TRUNCATE"@
    } else if i == 6 {
        "GRANT"@
    } else if i == 7 {
        "REVOKE"@
    } else if i == 8 {
        "BEGIN"@
    } else if i == 9 {
        "COMMIT"@
    } else if i == 10 {
        "SAVEPOINT"@
    } else {
        "ROLLBACK"@
    }
}

/// The first deny-listed keyword, from index `i` on, that occurs in `u`.
pub open spec fn first_denied_from(u: Seq<char>, i: int) -> Option<usize>
    decreases 12 - i,
{
    if i < 0 || i >= 12 {
        None
    } else if contains(u, deny_word(i)) {
        Some(i as usize)
    } else {
        first_denied_from(u, i + 1)
    }
}

pub open spec fn first_denied(u: Seq<char>) -> Option<usize> {
    first_denied_from(u, 0)
}

/// What compiling alert `a` gives: the query text and its kind, or the
/// first rule it breaks.
pub open spec fn compiled(a: Alert) -> Result<(Seq<char>, QueryType), QueryError> {
    let t = split_on(a.lookup@, ' ');
    match lookup_error(t) {
        Some(e) => Err(e),
        None => {
            let m = mode_of(t[1])->Some_0;
            let q = query_text(a, t, m);
            match first_denied(upper_of(q)) {
                Some(i) => Err(QueryError::DisallowedStatement(i)),
                None => Ok((q, m)),
            }
        },
    }
}

/// `r` is what compiling alert `a` gives.
pub open spec fn compile_post(a: Alert, r: Result<(String, QueryType), QueryError>) -> bool {
    match compiled(a) {
        Ok(p) => r is Ok && r->Ok_0.0@ == p.0 && r->Ok_0.1 == p.1,
        Err(e) => r == Err::<(String, QueryType), QueryError>(e),
    }
}

proof fn lemma_first_denied_none(u: Seq<char>, i: int)
    requires
        0 <= i <= 12,
        first_denied_from(u, i) is None,
    ensures
        forall|j: int| i <= j < 12 ==> !contains(u, #[trigger] deny_word(j)),
    decreases 12 - i,
{
    if i < 12 {
        lemma_first_denied_none(u, i + 1);
    }
}

/// The deny-listed keyword of index `i`.
pub fn disallowed_statement(i: usize) -> (r: &'static str)
    requires
        i < DENY_COUNT,
    ensures
        r@ == deny_word(i as int),
{
    match i {
        0 => "DELETE",
        1 => "UPDATE",
        2 => "INSERT",
        3 => "ALTER",
        4 => "DROP",
        5 => "TRUNCATE",
        6 => "GRANT",
        7 => "REVOKE",
        8 => "BEGIN",
        9 => "COMMIT",
        10 => "SAVEPOINT",
        _ => "ROLLBACK",
    }
}

/// The index of the first deny-listed keyword that occurs in `upper`, an
/// upper-cased query.
pub fn find_disallowed(upper: &str) -> (r: Option<usize>)
    ensures
        r == first_denied(upper@),
        r matches Some(i) ==> i < DENY_COUNT,
{
    let hay = chars_of(upper);
    let mut i: usize = 0;
    while i < DENY_COUNT
        invariant
            hay@ == upper@,
            i <= DENY_COUNT,
            first_denied(upper@) == first_denied_from(upper@, i as int),
        decreases DENY_COUNT - i,
    {
        let word = chars_of(disallowed_statement(i));
        if contains_exec(&hay, &word) {
            return Some(i);
        }
        i = i + 1;
    }
    None
}

/// Appends the terms of the comma-separated columns `src[from..to]`, joined
/// by ` + `.
fn append_sum(out: &mut String, chars: &Vec<char>, src: &str, aggr: &str, from: usize, to: usize)
    requires
        chars@ == src@,
        from <= to <= chars@.len(),
    ensures
        final(out)@ == old(out)@ + sum_of(aggr@, split_on(src@.subrange(from as int, to as int), ',')),
{
    let spans = split_spans(chars, from, to, ',');
    let ghost cols = split_on(src@.subrange(from as int, to as int), ',');
    let ghost base = out@;
    let mut k: usize = 0;
    assert(cols.take(0) =~= Seq::<Seq<char>>::empty());
    assert(base + sum_of(aggr@, cols.take(0)) =~= base);
    while k < spans.len()
        invariant
            chars@ == src@,
            from <= to <= chars@.len(),
            spans@.len() == cols.len(),
            forall|j: int|
                #![trigger spans@[j]]
                0 <= j < spans@.len() ==> from <= spans@[j].0 <= spans@[j].1 <= to
                    && chars@.subrange(spans@[j].0 as int, spans@[j].1 as int) == cols[j],
            k <= spans@.len(),
            out@ == base + sum_of(aggr@, cols.take(k as int)),
        decreases spans@.len() - k,
    {
        let ghost before = out@;
        if k > 0 {
            out.append(" + ");
        }
        out.append(aggr);
        out.append("(");
        let col = src.substring_char(spans[k].0, spans[k].1);
        out.append(col);
        out.append(")::float8");
        proof {
            assert(col@ == cols[k as int]);
            assert(cols.take(k + 1).drop_last() =~= cols.take(k as int));
            assert(cols.take(k + 1).last() == cols[k as int]);
            if k == 0 {
                assert(out@ =~= base + sum_of(aggr@, cols.take(k + 1)));
            } else {
                assert(out@ =~= base + sum_of(aggr@, cols.take(k + 1)));
            }
        }
        k = k + 1;
    }
    assert(cols.take(k as int) =~= cols);
}

impl Alert {
    /// Compiles the lookup into the SQL query and the shape of its rows.
    pub fn construct_query(&self) -> (r: Result<(String, QueryType), QueryError>)
        ensures
            compile_post(*self, r),
            r is Ok ==> forall|i: int|
                0 <= i < DENY_COUNT ==> !contains(upper_of(r->Ok_0.0@), #[trigger] deny_word(i)),
    {
        let lookup = self.lookup.as_str();
        let chars = chars_of(lookup);
        let n = chars.len();
        let spans = split_spans(&chars, 0, n, ' ');
        let ghost t = split_on(self.lookup@, ' ');
        assert(chars@.subrange(0, n as int) =~= chars@);
        if spans.len() < 5 {
            return Err(QueryError::MalformedLookup);
        }
        let mode = if span_is(&chars, spans[1].0, spans[1].1, "pct") {
            QueryType::Pct
        } else if span_is(&chars, spans[1].0, spans[1].1, "abs") {
            QueryType::Abs
        } else {
            return Err(QueryError::UnknownMode);
        };
        let expected: usize = match mode {
            QueryType::Pct => 7,
            QueryType::Abs => 5,
        };
        if spans.len() != expected {
            return Err(QueryError::WrongTokenCount);
        }
        let (a0, a1) = spans[0];
        if !(span_is(&chars, a0, a1, "avg") || span_is(&chars, a0, a1, "sum") || span_is(
            &chars,
            a0,
            a1,
            "min",
        ) || span_is(&chars, a0, a1, "max") || span_is(&chars, a0, a1, "count")) {
            return Err(QueryError::UnknownAggregation);
        }
        let aggr = lookup.substring_char(a0, a1);
        let interval = lookup.substring_char(spans[2].0, spans[2].1);
        if !regex_is_match(INTERVAL_PATTERN, interval) {
            return Err(QueryError::BadInterval);
        }
        let mut q = String::from_str("SELECT time_bucket('");
        q.append(interval);
        q.append("', created_at) AS time, ");
        let ghost head = q@;
        append_sum(&mut q, &chars, lookup, aggr, spans[4].0, spans[4].1);
        match mode {
            QueryType::Abs => {
                q.append(" AS value");
            },
            QueryType::Pct => {
                q.append(" AS numerator, ");
                append_sum(&mut q, &chars, lookup, aggr, spans[6].0, spans[6].1);
                q.append(" AS divisor");
            },
        }
        assert(q@ =~= head + select_list(t, mode));
        q.append(" FROM ");
        q.append(self.table.as_str());
        q.append(" WHERE host_uuid = $1 AND created_at > now() at time zone 'utc' - INTERVAL '");
        q.append(interval);
        q.append("'");
        match &self.where_clause {
            Some(w) => {
                q.append(" AND ");
                q.append(w.as_str());
            },
            None => {},
        }
        q.append(" GROUP BY time ORDER BY time DESC");
        assert(q@ =~= query_text(*self, t, mode));
        let upper = uppercase(q.as_str());
        match find_disallowed(upper.as_str()) {
            Some(i) => Err(QueryError::DisallowedStatement(i)),
            None => {
                proof {
                    lemma_first_denied_none(upper@, 0);
                }
                Ok((q, mode))
            },
        }
    }
}

/// Compiling is a function of the alert: two compilations of the same alert
/// agree on success, on the query text and on the kind, or fail alike.
pub proof fn compile_is_deterministic(
    a: Alert,
    r1: Result<(String, QueryType), QueryError>,
    r2: Result<(String, QueryType), QueryError>,
)
    requires
        compile_post(a, r1),
        compile_post(a, r2),
    ensures
        r1 is Ok <==> r2 is Ok,
        r1 is Ok ==> r1->Ok_0.0@ == r2->Ok_0.0@ && r1->Ok_0.1 == r2->Ok_0.1,
        r1 is Err ==> r1 == r2,
{
}

} // verus!
