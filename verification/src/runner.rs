//! The timed-execution bookkeeping for one query: a state machine that the
//! driving shell feeds one measured statement duration at a time. It walks
//! the statement batch once per iteration, sums each iteration's statement
//! times into one duration, and tells the shell which statement to submit
//! next and whether this is still the artifact-capturing first iteration.
//!
//! The ghost history records every measured time, so the central invariant
//! — each finished iteration contributed exactly one duration, equal to the
//! sum of that iteration's per-statement times — is stated over the full
//! measurement record.

use vstd::prelude::*;

verus! {

/// The sum of a sequence of measured millisecond values.
pub open spec fn sum(s: Seq<u128>) -> int
    decreases s.len(),
{
    if s.len() == 0 {
        0
    } else {
        sum(s.drop_last()) + s.last()
    }
}

/// Iteration-controlled execution state for one query.
pub struct QueryRun {
    /// The query's number.
    pub query_no: u8,
    /// How many statements the query's batch holds.
    pub num_statements: usize,
    /// How many iterations were requested.
    pub iterations: u8,
    /// One summed duration per finished iteration.
    pub durations: Vec<u128>,
    /// The running total of the current iteration.
    pub current_total: u128,
    /// The next statement of the current iteration to submit.
    pub stmt_idx: usize,
    /// Ghost record: per finished iteration, its per-statement times.
    pub history: Ghost<Seq<Seq<u128>>>,
    /// Ghost record: the per-statement times of the current iteration.
    pub current: Ghost<Seq<u128>>,
}

impl QueryRun {
    /// All requested iterations have finished.
    pub open spec fn is_done(self) -> bool {
        self.durations@.len() == self.iterations as int
    }

    /// The state invariant: durations and history line up, every finished
    /// iteration measured every statement exactly once, and each recorded
    /// duration is the sum of its iteration's statement times.
    pub open spec fn inv(self) -> bool {
        &&& self.num_statements >= 1
        &&& self.durations@.len() == self.history@.len()
        &&& self.durations@.len() <= self.iterations as int
        &&& forall|i: int|
            0 <= i < self.history@.len() ==> (#[trigger] self.history@[i]).len()
                == self.num_statements as int
        &&& forall|i: int|
            0 <= i < self.history@.len() ==> self.durations@[i] as int == sum(
                #[trigger] self.history@[i],
            )
        &&& self.current@.len() == self.stmt_idx as int
        &&& self.current_total as int == sum(self.current@)
        &&& self.stmt_idx < self.num_statements
        &&& (self.is_done() ==> self.stmt_idx == 0)
    }

    /// Starts a run of `iterations` iterations over a batch of
    /// `num_statements` statements.
    pub fn new(query_no: u8, num_statements: usize, iterations: u8) -> (r: Self)
        requires
            num_statements >= 1,
        ensures
            r.inv(),
            r.query_no == query_no,
            r.num_statements == num_statements,
            r.iterations == iterations,
            r.durations@ == Seq::<u128>::empty(),
            r.history@ == Seq::<Seq<u128>>::empty(),
            r.stmt_idx == 0,
            r.is_done() <==> iterations == 0,
    {
        let r = QueryRun {
            query_no,
            num_statements,
            iterations,
            durations: Vec::new(),
            current_total: 0,
            stmt_idx: 0,
            history: Ghost(Seq::empty()),
            current: Ghost(Seq::empty()),
        };
        proof {
            assert(sum(Seq::<u128>::empty()) == 0);
        }
        r
    }

    /// Whether every requested iteration has finished.
    pub fn done(&self) -> (r: bool)
        ensures
            r == self.is_done(),
    {
        self.durations.len() == self.iterations as usize
    }

    /// The index of the statement to submit next.
    pub fn next_statement(&self) -> (r: usize)
        requires
            self.inv(),
            !self.is_done(),
        ensures
            r == self.stmt_idx,
            r < self.num_statements,
    {
        self.stmt_idx
    }

    /// The index of the current iteration: artifacts are captured exactly
    /// while this is 0.
    pub fn iteration(&self) -> (r: usize)
        requires
            self.inv(),
        ensures
            r as int == self.history@.len(),
            r as int == self.durations@.len(),
    {
        self.durations.len()
    }

    /// Whether the run is still in its first, artifact-capturing
    /// iteration.
    pub fn first_iteration(&self) -> (r: bool)
        requires
            self.inv(),
        ensures
            r == (self.durations@.len() == 0),
    {
        self.durations.len() == 0
    }

    /// Records the measured wall-clock duration of the statement at
    /// `stmt_idx` and advances: to the next statement, or — when this was
    /// the batch's last statement — to the next iteration, appending the
    /// iteration's summed duration.
    pub fn record_statement(&mut self, millis: u128)
        requires
            old(self).inv(),
            !old(self).is_done(),
            old(self).current_total + millis <= u128::MAX,
        ensures
            final(self).inv(),
            final(self).query_no == old(self).query_no,
            final(self).num_statements == old(self).num_statements,
            final(self).iterations == old(self).iterations,
            old(self).stmt_idx + 1 < old(self).num_statements ==> {
                &&& final(self).history@ == old(self).history@
                &&& final(self).durations@ == old(self).durations@
                &&& final(self).current@ == old(self).current@.push(millis)
                &&& final(self).stmt_idx == old(self).stmt_idx + 1
            },
            old(self).stmt_idx + 1 == old(self).num_statements ==> {
                &&& final(self).history@ == old(self).history@.push(
                    old(self).current@.push(millis),
                )
                &&& final(self).durations@ == old(self).durations@.push(
                    (old(self).current_total + millis) as u128,
                )
                &&& final(self).stmt_idx == 0
                &&& final(self).current@ == Seq::<u128>::empty()
            },
    {
        let total: u128 = self.current_total + millis;
        proof {
            let pushed = self.current@.push(millis);
            assert(pushed.drop_last() =~= self.current@);
            assert(sum(pushed) == sum(self.current@) + millis);
        }
        if self.stmt_idx + 1 < self.num_statements {
            self.current_total = total;
            self.stmt_idx = self.stmt_idx + 1;
            proof {
                self.current@ = self.current@.push(millis);
            }
        } else {
            let ghost finished_iter = self.current@.push(millis);
            self.durations.push(total);
            self.current_total = 0;
            self.stmt_idx = 0;
            proof {
                self.history@ = self.history@.push(finished_iter);
                self.current@ = Seq::empty();
                assert(sum(Seq::<u128>::empty()) == 0);
            }
        }
    }

    /// The per-iteration durations collected so far.
    pub fn durations(&self) -> (r: &Vec<u128>)
        ensures
            r@ == self.durations@,
    {
        &self.durations
    }
}

/// Law: a finished run holds exactly one duration per requested iteration,
/// each the sum of that iteration's per-statement measured times, over a
/// full walk of the statement batch.
pub proof fn lemma_one_duration_per_iteration(r: QueryRun)
    requires
        r.inv(),
        r.is_done(),
    ensures
        r.durations@.len() == r.iterations as int,
        forall|i: int|
            0 <= i < r.iterations as int ==> (#[trigger] r.history@[i]).len()
                == r.num_statements as int,
        forall|i: int|
            0 <= i < r.iterations as int ==> r.durations@[i] as int == sum(#[trigger] r.history@[i]),
        forall|i: int| 0 <= i < r.iterations as int ==> r.durations@[i] >= 0,
{
}

} // verus!
