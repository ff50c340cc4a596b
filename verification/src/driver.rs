//! The top-level control state machine: bind the dataset, then run either
//! one requested query or the full numbered suite in ascending order, and
//! finally write the report. A dataset-binding failure is fatal before any
//! query runs. In full-suite mode a query's failure is recorded and the
//! next query still runs; an explicitly requested single query's failure is
//! fatal, and then no report is written.

use vstd::prelude::*;

verus! {

/// The suite's fixed range of query numbers.
pub open spec fn suite_size() -> int {
    22
}

/// The query numbers a run attempts: exactly the requested one, or the
/// whole suite `1..=22` ascending when none was requested.
pub open spec fn requested_queries(requested: Option<u8>) -> Seq<u8> {
    match requested {
        Some(q) => seq![q],
        None => Seq::new(suite_size() as nat, |i: int| (i + 1) as u8),
    }
}

/// Where the run stands.
#[derive(Debug, Clone, Copy, PartialEq, Eq, Structural)]
pub enum Phase {
    /// Nothing bound yet.
    Initializing,
    /// Every table registered; no query attempted yet.
    DatasetBound,
    /// Queries are being attempted.
    Running,
    /// Every requested query was attempted; the report is owed.
    Completed,
    /// A fatal failure: the run aborts and no report is written.
    Failed,
}

/// The driver's state: which queries to attempt, how far it got, and its
/// phase.
pub struct Driver {
    /// The explicitly requested query, if any.
    pub requested: Option<u8>,
    /// The query numbers to attempt, in order.
    pub queries: Vec<u8>,
    /// How many of them were already handed out.
    pub next_idx: usize,
    /// The phase.
    pub phase: Phase,
}

impl Driver {
    /// The driver's invariant: the query list is pinned by the request,
    /// and progress stays within it.
    pub open spec fn inv(self) -> bool {
        &&& self.queries@ == requested_queries(self.requested)
        &&& self.next_idx <= self.queries@.len()
    }

    /// A run starts in `Initializing` with its full query list laid out.
    pub fn new(requested: Option<u8>) -> (r: Self)
        ensures
            r.inv(),
            r.requested == requested,
            r.phase == Phase::Initializing,
            r.next_idx == 0,
    {
        let queries: Vec<u8> = match requested {
            Some(q) => {
                let mut v: Vec<u8> = Vec::new();
                v.push(q);
                proof {
                    assert(v@ =~= requested_queries(requested));
                }
                v
            },
            None => {
                let mut v: Vec<u8> = Vec::new();
                let mut n: u8 = 1;
                while n <= 22
                    invariant
                        1 <= n <= 23,
                        v@.len() == n - 1,
                        forall|i: int| 0 <= i < v@.len() ==> v@[i] == i + 1,
                    decreases 23 - n,
                {
                    v.push(n);
                    n += 1;
                }
                proof {
                    assert(v@ =~= requested_queries(requested));
                }
                v
            },
        };
        Driver { requested, queries, next_idx: 0, phase: Phase::Initializing }
    }

    /// Consumes the dataset-binding outcome: success reaches
    /// `DatasetBound`; failure is fatal before any query runs.
    pub fn dataset_bound(&mut self, ok: bool)
        requires
            old(self).inv(),
            old(self).phase == Phase::Initializing,
        ensures
            final(self).inv(),
            final(self).requested == old(self).requested,
            final(self).queries == old(self).queries,
            final(self).next_idx == old(self).next_idx,
            ok ==> final(self).phase == Phase::DatasetBound,
            !ok ==> final(self).phase == Phase::Failed,
    {
        if ok {
            self.phase = Phase::DatasetBound;
        } else {
            self.phase = Phase::Failed;
        }
    }

    /// Hands out the next query number to attempt, or reaches `Completed`
    /// once every requested query was attempted.
    pub fn next_query(&mut self) -> (r: Option<u8>)
        requires
            old(self).inv(),
            old(self).phase == Phase::DatasetBound || old(self).phase == Phase::Running,
        ensures
            final(self).inv(),
            final(self).requested == old(self).requested,
            final(self).queries == old(self).queries,
            old(self).next_idx < old(self).queries@.len() ==> {
                &&& r == Some(old(self).queries@[old(self).next_idx as int])
                &&& final(self).next_idx == old(self).next_idx + 1
                &&& final(self).phase == Phase::Running
            },
            old(self).next_idx == old(self).queries@.len() ==> {
                &&& r is None
                &&& final(self).next_idx == old(self).next_idx
                &&& final(self).phase == Phase::Completed
            },
    {
        if self.next_idx < self.queries.len() {
            let q: u8 = self.queries[self.next_idx];
            self.next_idx = self.next_idx + 1;
            self.phase = Phase::Running;
            Some(q)
        } else {
            self.phase = Phase::Completed;
            None
        }
    }

    /// Consumes one query's outcome. In full-suite mode no query failure
    /// is fatal: the driver keeps running. A requested single query's
    /// failure is fatal.
    pub fn query_outcome(&mut self, ok: bool) -> (fatal: bool)
        requires
            old(self).inv(),
            old(self).phase == Phase::Running,
        ensures
            final(self).inv(),
            final(self).requested == old(self).requested,
            final(self).queries == old(self).queries,
            final(self).next_idx == old(self).next_idx,
            fatal == (!ok && old(self).requested is Some),
            fatal ==> final(self).phase == Phase::Failed,
            !fatal ==> final(self).phase == Phase::Running,
    {
        if !ok && self.requested.is_some() {
            self.phase = Phase::Failed;
            true
        } else {
            false
        }
    }

    /// The report policy: the report is written exactly when the run
    /// completed — never after a fatal failure.
    pub open spec fn report_due_spec(self) -> bool {
        self.phase == Phase::Completed
    }

    /// Decides `report_due_spec`.
    pub fn report_due(&self) -> (r: bool)
        ensures
            r == self.report_due_spec(),
    {
        matches!(self.phase, Phase::Completed)
    }
}

/// Law: in full-suite mode the attempted query numbers are exactly
/// `1..=22` ascending, and no single query's outcome — success or failure
/// — is fatal, so a run that binds its dataset attempts every one of them.
pub proof fn lemma_full_suite_is_best_effort(d: Driver, ok: bool)
    requires
        d.inv(),
        d.requested is None,
    ensures
        d.queries@.len() == suite_size(),
        forall|i: int| 0 <= i < suite_size() ==> d.queries@[i] == i + 1,
        !(!ok && d.requested is Some),
{
}

} // verus!
