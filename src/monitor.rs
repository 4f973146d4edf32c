//! The start-up set of monitored alerts: every alert compiled once, and the
//! active ones handed to the scheduler.

use vstd::prelude::*;

use crate::alert::Alert;
use crate::query::compiled;
use crate::query::QueryError;
use crate::query::QueryType;

verus! {

/// An alert together with its compiled query.
pub struct WholeAlert {
    pub inner: Alert,
    pub query: String,
    pub qtype: QueryType,
}

/// `w` is alert `a` with the query that compiling it gives.
pub open spec fn compiled_as(w: WholeAlert, a: Alert) -> bool {
    &&& w.inner == a
    &&& compiled(a) matches Ok(p) && w.query@ == p.0 && w.qtype == p.1
}

impl WholeAlert {
    /// Compiles `alert`.
    pub fn compile(alert: Alert) -> (r: Result<WholeAlert, QueryError>)
        ensures
            match compiled(alert) {
                Ok(_) => r matches Ok(w) && compiled_as(w, alert),
                Err(e) => r == Err::<WholeAlert, QueryError>(e),
            },
    {
        match alert.construct_query() {
            Ok((query, qtype)) => Ok(WholeAlert { inner: alert, query, qtype }),
            Err(e) => Err(e),
        }
    }

    /// A copy.
    pub fn duplicate(&self) -> (r: WholeAlert)
        ensures
            r.inner == self.inner,
            r.query@ == self.query@,
            r.qtype == self.qtype,
    {
        WholeAlert { inner: self.inner.duplicate(), query: self.query.clone(), qtype: self.qtype }
    }
}

/// The alerts to monitor at start-up.
pub struct Monitor {
    pub alerts: Vec<WholeAlert>,
}

/// The alerts of `s` whose `active` flag is set, in order.
pub open spec fn active_only(s: Seq<WholeAlert>) -> Seq<WholeAlert>
    decreases s.len(),
{
    if s.len() == 0 {
        Seq::empty()
    } else {
        active_only(s.drop_last()) + if s.last().inner.active {
            seq![s.last()]
        } else {
            Seq::empty()
        }
    }
}

impl Monitor {
    /// Compiles every alert. A compile error at start-up is fatal: the first
    /// alert that fails is reported with its id.
    pub fn default(alerts: &Vec<Alert>) -> (r: Result<Monitor, (i64, QueryError)>)
        ensures
            match r {
                Ok(m) => m.alerts@.len() == alerts@.len() && forall|i: int|
                    0 <= i < alerts@.len() ==> #[trigger] compiled_as(m.alerts@[i], alerts@[i]),
                Err((id, e)) => exists|k: int|
                    0 <= k < alerts@.len() && id == alerts@[k].id && compiled(alerts@[k]) == Err::<
                        (Seq<char>, QueryType),
                        QueryError,
                    >(e) && forall|j: int| 0 <= j < k ==> #[trigger] compiled(alerts@[j]) is Ok,
            },
            r is Ok <==> forall|i: int| 0 <= i < alerts@.len() ==> #[trigger] compiled(alerts@[i]) is Ok,
    {
        let mut out: Vec<WholeAlert> = Vec::new();
        let mut i: usize = 0;
        while i < alerts.len()
            invariant
                i <= alerts@.len(),
                out@.len() == i,
                forall|j: int| 0 <= j < i ==> #[trigger] compiled_as(out@[j], alerts@[j]),
            decreases alerts@.len() - i,
        {
            let a = alerts[i].duplicate();
            match WholeAlert::compile(a) {
                Ok(w) => out.push(w),
                Err(e) => {
                    assert(forall|j: int| 0 <= j < i ==> #[trigger] compiled(alerts@[j]) is Ok) by {
                        assert(forall|j: int| 0 <= j < i ==> compiled_as(out@[j], alerts@[j]));
                    }
                    return Err((alerts[i].id, e));
                },
            }
            i = i + 1;
        }
        assert(forall|j: int| 0 <= j < alerts@.len() ==> #[trigger] compiled(alerts@[j]) is Ok) by {
            assert(forall|j: int| 0 <= j < alerts@.len() ==> compiled_as(out@[j], alerts@[j]));
        }
        Ok(Monitor { alerts: out })
    }

    /// The alerts to start: the active ones, in order.
    pub fn oneshot(&self) -> (r: Vec<WholeAlert>)
        ensures
            r@.len() == active_only(self.alerts@).len(),
            forall|k: int|
                0 <= k < r@.len() ==> (#[trigger] r@[k]).inner == active_only(self.alerts@)[k].inner
                    && r@[k].query@ == active_only(self.alerts@)[k].query@ && r@[k].qtype
                    == active_only(self.alerts@)[k].qtype,
    {
        let mut out: Vec<WholeAlert> = Vec::new();
        let mut i: usize = 0;
        assert(self.alerts@.take(0) =~= Seq::<WholeAlert>::empty());
        while i < self.alerts.len()
            invariant
                i <= self.alerts@.len(),
                out@.len() == active_only(self.alerts@.take(i as int)).len(),
                forall|k: int|
                    0 <= k < out@.len() ==> (#[trigger] out@[k]).inner == active_only(
                        self.alerts@.take(i as int),
                    )[k].inner && out@[k].query@ == active_only(self.alerts@.take(i as int))[k].query@
                        && out@[k].qtype == active_only(self.alerts@.take(i as int))[k].qtype,
            decreases self.alerts@.len() - i,
        {
            assert(self.alerts@.take(i + 1).drop_last() =~= self.alerts@.take(i as int));
            assert(self.alerts@.take(i + 1).last() == self.alerts@[i as int]);
            let ghost before = active_only(self.alerts@.take(i as int));
            if self.alerts[i].inner.active {
                out.push(self.alerts[i].duplicate());
                assert(active_only(self.alerts@.take(i + 1)) == before.push(self.alerts@[i as int]));
            } else {
                assert(active_only(self.alerts@.take(i + 1)) =~= before);
            }
            i = i + 1;
        }
        assert(self.alerts@.take(i as int) =~= self.alerts@);
        out
    }
}

} // verus!
