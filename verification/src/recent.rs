//! Summarizing recently-run jobs: grouping accounting records by their
//! array master and tallying their states.
//!
//! The command-line driver walks the queried records, feeds them into
//! `JobGroupInfo` aggregates keyed by group id, and prints the result;
//! the aggregation arithmetic — the query window, the output cap, and
//! the per-state counters — is what this module states and checks.

use vstd::prelude::*;
use crate::db::JobRecord;
use crate::heap::{SlurmHeap, MAX_TIMESTAMP};
use crate::util::{dur_to_text, spec_dur_text};
use crate::JobId;

verus! {

/// Options of the recent-jobs command.
pub struct RecentCommand {
    /// How many days back to query the accounting database.
    pub span_days: usize,
    /// Limit the output to at most this number of recent job groups.
    pub limit: usize,
}

impl RecentCommand {
    /// The earliest submission time the query should cover: the present
    /// moment minus the requested span.
    pub fn min_start(&self, now: i64) -> (r: i64)
        requires
            0 <= now <= MAX_TIMESTAMP,
            self.span_days * 86400 <= MAX_TIMESTAMP,
        ensures
            r == now - self.span_days * 86400,
    {
        now - (self.span_days as i64) * 86400
    }

    /// How many of the (time-ordered) job groups to skip so that at most
    /// `limit` of them are printed.
    pub fn skip_count(&self, n_groups: usize) -> (r: usize)
        ensures
            n_groups < self.limit ==> r == 0,
            n_groups >= self.limit ==> r == n_groups - self.limit,
    {
        if n_groups < self.limit {
            0
        } else {
            n_groups - self.limit
        }
    }
}

/// One per-state tally within a job group.
#[derive(Clone, Copy, Debug)]
pub struct StateCount {
    /// Raw job state code.
    pub state: u32,
    /// How many jobs of the group ended in that state.
    pub n: usize,
}

/// How many jobs the tallies assign to state `st`.
pub open spec fn count_of(s: Seq<StateCount>, st: u32) -> nat
    decreases s.len(),
{
    if s.len() == 0 {
        0
    } else {
        count_of(s.drop_last(), st) + (if s.last().state == st {
            s.last().n as nat
        } else {
            0nat
        })
    }
}

/// Bumping one tally whose state is `st` raises that state's count by
/// one and no other's.
proof fn lemma_count_of_update(s: Seq<StateCount>, k: int, st: u32, x: u32)
    requires
        0 <= k < s.len(),
        s[k].state == st,
        s[k].n < usize::MAX,
    ensures
        count_of(s.update(k, StateCount { state: st, n: (s[k].n + 1) as usize }), x)
            == count_of(s, x) + (if x == st {
            1nat
        } else {
            0nat
        }),
    decreases s.len(),
{
    let s2 = s.update(k, StateCount { state: st, n: (s[k].n + 1) as usize });
    if k == s.len() - 1 {
        assert(s2.drop_last() =~= s.drop_last());
        assert(s2.last() == StateCount { state: st, n: (s[k].n + 1) as usize });
    } else {
        assert(s2.drop_last() =~= s.drop_last().update(
            k,
            StateCount { state: st, n: (s[k].n + 1) as usize },
        ));
        assert(s2.last() == s.last());
        lemma_count_of_update(s.drop_last(), k, st, x);
    }
}

/// Appending a fresh tally contributes exactly its own count.
proof fn lemma_count_of_push(s: Seq<StateCount>, e: StateCount, x: u32)
    ensures
        count_of(s.push(e), x) == count_of(s, x) + (if e.state == x {
            e.n as nat
        } else {
            0nat
        }),
{
    assert(s.push(e).drop_last() =~= s);
    assert(s.push(e).last() == e);
}

/// Aggregate information about one group of jobs (a job array, or a
/// single job outside any array).
#[derive(Debug)]
pub struct JobGroupInfo {
    /// The group id the member jobs share.
    pub id: JobId,
    /// The name of the job seen first.
    pub name: String,
    /// Submission time of the job seen first, as Unix seconds.
    pub submit_time: i64,
    /// The submission time rendered as an approximate age.
    pub submit_text: String,
    /// How many jobs have been folded into the group.
    pub n_jobs: usize,
    /// Per-state tallies over the folded jobs.
    pub states: Vec<StateCount>,
}

impl JobGroupInfo {
    /// No tally exceeds the number of folded jobs (so a tally can always
    /// be bumped while the total fits).
    pub open spec fn wf(self) -> bool {
        forall|k: int| 0 <= k < self.states@.len() ==> (#[trigger] self.states@[k]).n
            <= self.n_jobs
    }

    /// Open a group for the first job seen in it: the group id, the
    /// job's name and submission time, its age rendered against `now`,
    /// and no members folded in yet.
    pub fn new(heap: &SlurmHeap, job: &JobRecord, now: i64) -> (r: JobGroupInfo)
        requires
            heap.wf(),
            job.valid(*heap),
            heap.is_str(job.data(*heap).jobname),
            job.data(*heap).submit <= now <= MAX_TIMESTAMP,
        ensures
            r.wf(),
            ({
                let d = job.data(*heap);
                &&& (d.array_job_id != 0 ==> r.id == d.array_job_id)
                &&& (d.array_job_id == 0 ==> r.id == d.jobid)
                &&& r.name@ == heap.str_at(d.jobname)
                &&& r.submit_time == d.submit
                &&& r.submit_text@ == spec_dur_text((now - d.submit) as nat)
                &&& r.n_jobs == 0
                &&& r.states@.len() == 0
            }),
    {
        let submit_time = job.submit_time(heap);
        let submit_text = dur_to_text(now - submit_time);
        JobGroupInfo {
            id: job.group_id(heap),
            name: job.job_name(heap),
            submit_time,
            submit_text,
            n_jobs: 0,
            states: Vec::new(),
        }
    }

    /// Fold one more job of the group in: the member count rises by one,
    /// the tally of the job's state rises by one, and every other tally
    /// is untouched.
    pub fn accumulate(&mut self, state: u32)
        requires
            old(self).wf(),
            old(self).n_jobs < usize::MAX,
        ensures
            final(self).wf(),
            final(self).n_jobs == old(self).n_jobs + 1,
            final(self).id == old(self).id,
            final(self).name == old(self).name,
            final(self).submit_time == old(self).submit_time,
            final(self).submit_text == old(self).submit_text,
            forall|x: u32|
                count_of(final(self).states@, x) == count_of(old(self).states@, x) + (if x
                    == state {
                    1nat
                } else {
                    0nat
                }),
    {
        self.n_jobs = self.n_jobs + 1;
        let n = self.states.len();
        let mut k: usize = 0;
        while k < n
            invariant
                old(self).wf(),
                n == self.states@.len(),
                k <= n,
                self.states@ == old(self).states@,
                self.n_jobs == old(self).n_jobs + 1,
                self.id == old(self).id,
                self.name == old(self).name,
                self.submit_time == old(self).submit_time,
                self.submit_text == old(self).submit_text,
                forall|m: int| 0 <= m < k ==> (#[trigger] self.states@[m]).state != state,
            decreases n - k,
        {
            if self.states[k].state == state {
                let bumped = StateCount { state, n: self.states[k].n + 1 };
                proof {
                    lemma_count_of_update_all(self.states@, k as int, state);
                }
                let entry = &mut self.states[k];
                *entry = bumped;
                return ;
            }
            k = k + 1;
        }
        proof {
            lemma_count_of_push_all(self.states@, StateCount { state, n: 1 });
        }
        self.states.push(StateCount { state, n: 1 });
    }
}

/// `lemma_count_of_update`, quantified over every queried state.
proof fn lemma_count_of_update_all(s: Seq<StateCount>, k: int, st: u32)
    requires
        0 <= k < s.len(),
        s[k].state == st,
        s[k].n < usize::MAX,
    ensures
        forall|x: u32|
            count_of(s.update(k, StateCount { state: st, n: (s[k].n + 1) as usize }), x)
                == count_of(s, x) + (if x == st {
                1nat
            } else {
                0nat
            }),
{
    assert forall|x: u32|
        count_of(s.update(k, StateCount { state: st, n: (s[k].n + 1) as usize }), x)
            == count_of(s, x) + (if x == st {
            1nat
        } else {
            0nat
        }) by {
        lemma_count_of_update(s, k, st, x);
    }
}

/// `lemma_count_of_push`, quantified over every queried state.
proof fn lemma_count_of_push_all(s: Seq<StateCount>, e: StateCount)
    ensures
        forall|x: u32|
            count_of(s.push(e), x) == count_of(s, x) + (if e.state == x {
                e.n as nat
            } else {
                0nat
            }),
{
    assert forall|x: u32|
        count_of(s.push(e), x) == count_of(s, x) + (if e.state == x {
            e.n as nat
        } else {
            0nat
        }) by {
        lemma_count_of_push(s, e, x);
    }
}

} // verus!
