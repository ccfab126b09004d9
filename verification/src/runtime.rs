//! The modelled foreign runtime: the allocator heap, the thread-local
//! error register, and the daemon-side tables the query and submission
//! entry points answer from.
//!
//! The Slurm daemon itself is a black box that returns status codes and
//! pointers; this module gives that interface a concrete, verified
//! reference state so the binding's ownership and error protocols can be
//! stated and checked end to end.  Every failing call sets the error
//! register first and reports a bare status, exactly as the foreign
//! convention demands; the register is read immediately afterwards and
//! mapped through the code table.

use vstd::prelude::*;
use crate::db::{
    DatabaseConnection, DatabaseConnectionOwned, JobFilters, JobRecord,
};
use crate::error::{spec_from_slurm, SlurmError};
use crate::heap::{
    extends, JobRecordData, Payload, RawHandle, SharedAcctFields, SlurmHeap, StepRecordData,
    SubmitResponseData, MAX_TIMESTAMP,
};
use crate::list::{list_elems_at, SlurmListOwned};
use crate::submit::{JobDescriptor, SubmitResponseMessageOwned};

verus! {

/// A job currently known to the live-job subsystem.
pub struct LiveJobData {
    pub job_id: u32,
    pub partition: String,
}

/// A step record stored in the accounting database.
pub struct AcctStepData {
    pub stepid: u32,
    pub stepname: String,
    pub shared: SharedAcctFields,
}

impl AcctStepData {
    pub open spec fn wf(self) -> bool {
        self.shared.wf()
    }
}

/// A job record stored in the accounting database.
pub struct AcctJobData {
    pub jobid: u32,
    pub array_job_id: u32,
    pub state: u32,
    pub jobname: String,
    pub submit: i64,
    pub eligible: i64,
    pub timelimit: u32,
    pub shared: SharedAcctFields,
    pub steps: Vec<AcctStepData>,
}

impl AcctJobData {
    pub open spec fn wf(self) -> bool {
        &&& 0 <= self.submit <= MAX_TIMESTAMP
        &&& 0 <= self.eligible <= MAX_TIMESTAMP
        &&& self.shared.wf()
        &&& forall|i: int| 0 <= i < self.steps@.len() ==> (#[trigger] self.steps@[i]).wf()
    }
}

/// The whole foreign runtime: allocator heap, error register, and the
/// daemon tables queries and submissions are answered from.
pub struct SlurmRuntime {
    /// The foreign allocator's heap.
    pub heap: SlurmHeap,
    /// The thread-local "last errno" register.
    pub last_errno: i32,
    /// Jobs the live-job subsystem currently knows.
    pub live_jobs: Vec<LiveJobData>,
    /// Records the accounting database holds.
    pub acct_jobs: Vec<AcctJobData>,
    /// The id the next accepted submission receives.
    pub next_job_id: u32,
    /// Nonzero: submissions fail with this errno.
    pub submit_fail_errno: i32,
    /// Server-side error code copied into submission responses.
    pub submit_error_code: u32,
    /// Server user message copied into submission responses.
    pub submit_user_msg: String,
    /// Nonzero: accounting connections fail with this errno.
    pub connect_fail_errno: i32,
    /// Nonzero: accounting queries fail with this errno.
    pub query_fail_errno: i32,
}

impl SlurmRuntime {
    /// The runtime invariant: a sound heap, an id counter inside the
    /// range it cycles through, tables small enough to count in `u32`,
    /// and structurally sound accounting records.
    pub open spec fn wf(self) -> bool {
        &&& self.heap.wf()
        &&& 1 <= self.next_job_id <= 0x7fffffffu32
        &&& self.live_jobs@.len() < 0xffffffffu32
        &&& forall|i: int| 0 <= i < self.acct_jobs@.len() ==> (#[trigger] self.acct_jobs@[i]).wf()
    }

    /// A fresh runtime: empty heap, clear error register, empty tables,
    /// ids starting at one, and every call set up to succeed.
    pub fn new() -> (r: SlurmRuntime)
        ensures
            r.wf(),
            r.last_errno == 0,
            r.live_jobs@.len() == 0,
            r.acct_jobs@.len() == 0,
            r.next_job_id == 1,
            r.submit_fail_errno == 0,
            r.submit_error_code == 0,
            r.submit_user_msg@ == Seq::<char>::empty(),
            r.connect_fail_errno == 0,
            r.query_fail_errno == 0,
            forall|h: RawHandle| !r.heap.live(h),
    {
        SlurmRuntime {
            heap: SlurmHeap::new(),
            last_errno: 0,
            live_jobs: Vec::new(),
            acct_jobs: Vec::new(),
            next_job_id: 1,
            submit_fail_errno: 0,
            submit_error_code: 0,
            submit_user_msg: String::new(),
            connect_fail_errno: 0,
            query_fail_errno: 0,
        }
    }

    /// Read the thread-local error register, as a failing call's caller
    /// does immediately after the call returns.
    pub fn get_last_errno(&self) -> (r: i32)
        ensures
            r == self.last_errno,
    {
        self.last_errno
    }

    /// Register a job with the live-job subsystem.
    pub fn add_live_job(&mut self, job_id: u32, partition: String)
        requires
            old(self).wf(),
            old(self).live_jobs@.len() + 1 < 0xffffffffu32,
        ensures
            final(self).wf(),
            final(self).live_jobs@ == old(self).live_jobs@.push(LiveJobData { job_id, partition }),
            final(self).heap == old(self).heap,
            final(self).acct_jobs == old(self).acct_jobs,
            final(self).last_errno == old(self).last_errno,
    {
        self.live_jobs.push(LiveJobData { job_id, partition });
    }

    /// Store a record in the accounting database.
    pub fn add_acct_job(&mut self, job: AcctJobData)
        requires
            old(self).wf(),
            job.wf(),
        ensures
            final(self).wf(),
            final(self).acct_jobs@ == old(self).acct_jobs@.push(job),
            final(self).heap == old(self).heap,
            final(self).live_jobs == old(self).live_jobs,
            final(self).last_errno == old(self).last_errno,
    {
        self.acct_jobs.push(job);
    }
}

/// How many live-job entries carry the given id.
pub open spec fn count_matching(s: Seq<LiveJobData>, jid: u32) -> nat
    decreases s.len(),
{
    if s.len() == 0 {
        0
    } else {
        count_matching(s.drop_last(), jid) + (if s.last().job_id == jid {
            1nat
        } else {
            0nat
        })
    }
}

/// Counting over one more entry adds one exactly when that entry matches.
pub proof fn lemma_count_matching_step(s: Seq<LiveJobData>, jid: u32, i: int)
    requires
        0 <= i < s.len(),
    ensures
        count_matching(s.take(i + 1), jid) == count_matching(s.take(i), jid) + (if s[i].job_id
            == jid {
            1nat
        } else {
            0nat
        }),
{
    assert(s.take(i + 1).drop_last() =~= s.take(i));
    assert(s.take(i + 1).last() == s[i]);
}

/// The job ids a step-filter list selects, in list order.
pub open spec fn step_filter_ids(heap: SlurmHeap, lh: RawHandle) -> Seq<u32> {
    list_elems_at(heap, lh).map_values(
        |h: RawHandle| heap.payload_of(h)->JobStepFilter_0.jobid,
    )
}

/// Whether an accounting record passes the query's id selection: an
/// empty selection admits every record.
pub open spec fn job_matches(j: AcctJobData, sel: Seq<u32>) -> bool {
    sel.len() == 0 || sel.contains(j.jobid)
}

/// The records a query returns, in table order.
pub open spec fn matching_jobs(s: Seq<AcctJobData>, sel: Seq<u32>) -> Seq<AcctJobData>
    decreases s.len(),
{
    if s.len() == 0 {
        Seq::empty()
    } else {
        matching_jobs(s.drop_last(), sel) + (if job_matches(s.last(), sel) {
            seq![s.last()]
        } else {
            Seq::empty()
        })
    }
}

/// Selecting over one more record appends it exactly when it matches.
pub proof fn lemma_matching_jobs_step(s: Seq<AcctJobData>, sel: Seq<u32>, i: int)
    requires
        0 <= i < s.len(),
    ensures
        matching_jobs(s.take(i + 1), sel) == matching_jobs(s.take(i), sel) + (if job_matches(
            s[i],
            sel,
        ) {
            seq![s[i]]
        } else {
            Seq::<AcctJobData>::empty()
        }),
{
    assert(s.take(i + 1).drop_last() =~= s.take(i));
    assert(s.take(i + 1).last() == s[i]);
}

/// A query with no step filters attached holds back nothing: the result
/// set is the whole accounting table, whatever its contents.
pub proof fn lemma_empty_selection_admits_all(s: Seq<AcctJobData>, sel: Seq<u32>)
    requires
        sel.len() == 0,
    ensures
        matching_jobs(s, sel) == s,
    decreases s.len(),
{
    if s.len() == 0 {
        assert(matching_jobs(s, sel) =~= s);
    } else {
        lemma_empty_selection_admits_all(s.drop_last(), sel);
        assert(matching_jobs(s, sel) =~= s);
    }
}

/// A query returns only records its selection admits.
pub proof fn lemma_selection_is_respected(s: Seq<AcctJobData>, sel: Seq<u32>, k: int)
    requires
        0 <= k < matching_jobs(s, sel).len(),
    ensures
        job_matches(matching_jobs(s, sel)[k], sel),
    decreases s.len(),
{
    if s.len() > 0 {
        if k < matching_jobs(s.drop_last(), sel).len() {
            lemma_selection_is_respected(s.drop_last(), sel, k);
        }
    }
}

/// The allocation at `sh` holds the step record `st`, name string
/// included.
pub open spec fn step_materialized(heap: SlurmHeap, sh: RawHandle, st: AcctStepData) -> bool {
    &&& heap.live(sh)
    &&& heap.payload_of(sh) matches Payload::StepRecord(d) && {
        &&& d.stepid == st.stepid
        &&& heap.is_str(d.stepname)
        &&& heap.str_at(d.stepname) == st.stepname@
        &&& d.shared == st.shared
    }
}

/// The allocation at `jh` holds the job record `j`: every scalar field,
/// the name string, and a list of fully materialized step records.
pub open spec fn job_materialized(heap: SlurmHeap, jh: RawHandle, j: AcctJobData) -> bool {
    &&& heap.live(jh)
    &&& heap.payload_of(jh) matches Payload::JobRecord(d) && {
        &&& d.jobid == j.jobid
        &&& d.array_job_id == j.array_job_id
        &&& d.state == j.state
        &&& heap.is_str(d.jobname)
        &&& heap.str_at(d.jobname) == j.jobname@
        &&& d.submit == j.submit
        &&& d.eligible == j.eligible
        &&& d.timelimit == j.timelimit
        &&& d.shared == j.shared
        &&& d.steps != 0
        &&& heap.live(d.steps)
        &&& heap.payload_of(d.steps) is List
        &&& ({
            let es = heap.payload_of(d.steps)->List_0@;
            &&& es.len() == j.steps@.len()
            &&& forall|k: int|
                0 <= k < es.len() ==> step_materialized(heap, #[trigger] es[k], j.steps@[k])
        })
    }
}

/// A materialized step record survives any heap growth.
pub proof fn lemma_step_materialized_extends(
    pre: SlurmHeap,
    post: SlurmHeap,
    sh: RawHandle,
    st: AcctStepData,
)
    requires
        step_materialized(pre, sh, st),
        extends(pre, post),
    ensures
        step_materialized(post, sh, st),
{
    assert(post.live(sh) && post.payload_of(sh) == pre.payload_of(sh));
    let d = pre.payload_of(sh)->StepRecord_0;
    assert(post.live(d.stepname) && post.payload_of(d.stepname) == pre.payload_of(d.stepname));
}

/// A materialized job record survives any heap growth.
pub proof fn lemma_job_materialized_extends(
    pre: SlurmHeap,
    post: SlurmHeap,
    jh: RawHandle,
    j: AcctJobData,
)
    requires
        job_materialized(pre, jh, j),
        extends(pre, post),
    ensures
        job_materialized(post, jh, j),
{
    assert(post.live(jh) && post.payload_of(jh) == pre.payload_of(jh));
    let d = pre.payload_of(jh)->JobRecord_0;
    assert(post.live(d.jobname) && post.payload_of(d.jobname) == pre.payload_of(d.jobname));
    assert(post.live(d.steps) && post.payload_of(d.steps) == pre.payload_of(d.steps));
    let es = pre.payload_of(d.steps)->List_0@;
    assert forall|k: int| 0 <= k < es.len() implies step_materialized(
        post,
        #[trigger] es[k],
        j.steps@[k],
    ) by {
        lemma_step_materialized_extends(pre, post, es[k], j.steps@[k]);
    }
}

/// Allocate the foreign image of one accounting step record.
fn materialize_step(heap: &mut SlurmHeap, st: &AcctStepData) -> (sh: RawHandle)
    requires
        old(heap).wf(),
        st.wf(),
    ensures
        final(heap).wf(),
        extends(*old(heap), *final(heap)),
        step_materialized(*final(heap), sh, *st),
        !old(heap).live(sh),
        old(heap).boundary() <= final(heap).boundary(),
{
    let ghost h0 = *heap;
    let name_h = crate::heap::slurm_alloc_utf8_string(heap, st.stepname.as_str());
    let ghost h1 = *heap;
    let sh = heap.allocate(
        Payload::StepRecord(
            StepRecordData { stepid: st.stepid, stepname: name_h, shared: st.shared },
        ),
    );
    proof {
        crate::heap::lemma_extends_trans(h0, h1, *heap);
        if h0.live(sh) {
            assert(h1.live(sh));
        }
    }
    sh
}

/// Allocate the foreign image of one accounting job record: its step
/// records, their list, its name string, and the record itself.
fn materialize_job(heap: &mut SlurmHeap, j: &AcctJobData) -> (jh: RawHandle)
    requires
        old(heap).wf(),
        j.wf(),
    ensures
        final(heap).wf(),
        extends(*old(heap), *final(heap)),
        job_materialized(*final(heap), jh, *j),
        !old(heap).live(jh),
{
    let ghost h0 = *heap;
    let mut step_hs: Vec<RawHandle> = Vec::new();
    let mut i: usize = 0;
    while i < j.steps.len()
        invariant
            heap.wf(),
            j.wf(),
            extends(h0, *heap),
            i <= j.steps@.len(),
            step_hs@.len() == i,
            forall|k: int|
                0 <= k < i ==> step_materialized(*heap, #[trigger] step_hs@[k], j.steps@[k]),
        decreases j.steps@.len() - i,
    {
        let ghost pre = *heap;
        let sh = materialize_step(heap, &j.steps[i]);
        step_hs.push(sh);
        proof {
            crate::heap::lemma_extends_trans(h0, pre, *heap);
            assert forall|k: int| 0 <= k < i + 1 implies step_materialized(
                *heap,
                #[trigger] step_hs@[k],
                j.steps@[k],
            ) by {
                if k < i {
                    lemma_step_materialized_extends(pre, *heap, step_hs@[k], j.steps@[k]);
                }
            }
        }
        i = i + 1;
    }
    let ghost shs = step_hs@;
    let ghost h1 = *heap;
    let steps_h = heap.allocate(Payload::List(step_hs));
    let ghost h2 = *heap;
    let name_h = crate::heap::slurm_alloc_utf8_string(heap, j.jobname.as_str());
    let ghost h3 = *heap;
    let jh = heap.allocate(
        Payload::JobRecord(
            JobRecordData {
                jobid: j.jobid,
                array_job_id: j.array_job_id,
                state: j.state,
                jobname: name_h,
                submit: j.submit,
                eligible: j.eligible,
                steps: steps_h,
                timelimit: j.timelimit,
                shared: j.shared,
            },
        ),
    );
    proof {
        crate::heap::lemma_extends_trans(h1, h2, h3);
        crate::heap::lemma_extends_trans(h1, h3, *heap);
        crate::heap::lemma_extends_trans(h0, h1, *heap);
        assert(heap.payload_of(steps_h)->List_0@ == shs);
        assert forall|k: int| 0 <= k < shs.len() implies step_materialized(
            *heap,
            #[trigger] shs[k],
            j.steps@[k],
        ) by {
            lemma_step_materialized_extends(h1, *heap, shs[k], j.steps@[k]);
        }
        if h0.live(jh) {
            assert(h3.live(jh));
        }
    }
    jh
}

/// Linear membership scan over the collected selection ids.
fn ids_contains(ids: &Vec<u32>, x: u32) -> (r: bool)
    ensures
        r == ids@.contains(x),
{
    let mut i: usize = 0;
    while i < ids.len()
        invariant
            i <= ids@.len(),
            forall|k: int| 0 <= k < i ==> ids@[k] != x,
        decreases ids@.len() - i,
    {
        if ids[i] == x {
            return true;
        }
        i = i + 1;
    }
    false
}

impl DatabaseConnection {
    /// Query the accounting database for the jobs the filters select.
    /// The returned list — with every record, name string and step list
    /// freshly allocated — is owned by the caller; the records appear in
    /// table order, and with no step filters attached every record is
    /// returned.
    pub fn get_jobs(&self, rt: &mut SlurmRuntime, filters: &JobFilters) -> (r: Result<
        SlurmListOwned<JobRecord>,
        SlurmError,
    >)
        requires
            old(rt).wf(),
            self.valid(old(rt).heap),
            filters.valid_deep(old(rt).heap),
        ensures
            final(rt).wf(),
            final(rt).live_jobs == old(rt).live_jobs,
            final(rt).acct_jobs == old(rt).acct_jobs,
            old(rt).query_fail_errno != 0 ==> {
                &&& r == Result::<SlurmListOwned<JobRecord>, SlurmError>::Err(
                    spec_from_slurm(old(rt).query_fail_errno),
                )
                &&& final(rt).last_errno == old(rt).query_fail_errno
                &&& final(rt).heap == old(rt).heap
            },
            old(rt).query_fail_errno == 0 ==> {
                &&& r matches Ok(lst) && {
                    let sel = step_filter_ids(
                        old(rt).heap,
                        filters.data(old(rt).heap).step_list,
                    );
                    let picked = matching_jobs(old(rt).acct_jobs@, sel);
                    let es = list_elems_at(final(rt).heap, lst.addr());
                    &&& lst.addr() != 0
                    &&& !old(rt).heap.live(lst.addr())
                    &&& lst.l.valid(final(rt).heap)
                    &&& es.len() == picked.len()
                    &&& forall|k: int|
                        0 <= k < es.len() ==> job_materialized(
                            final(rt).heap,
                            #[trigger] es[k],
                            picked[k],
                        )
                    &&& forall|k: int, m: int| 0 <= k < m < es.len() ==> es[k] != es[m]
                    &&& forall|k: int| 0 <= k < es.len() ==> #[trigger] es[k] != lst.addr()
                }
                &&& extends(old(rt).heap, final(rt).heap)
                &&& final(rt).last_errno == old(rt).last_errno
            },
    {
        if rt.query_fail_errno != 0 {
            rt.last_errno = rt.query_fail_errno;
            let e = rt.get_last_errno();
            return Err(SlurmError::from_slurm(e));
        }
        let fd = match rt.heap.read(filters.h) {
            Payload::JobFilters(d) => *d,
            _ => vstd::pervasive::unreached(),
        };
        let mut ids: Vec<u32> = Vec::new();
        if fd.step_list != 0 {
            let entry_hs = match rt.heap.read(fd.step_list) {
                Payload::List(v) => crate::heap::clone_handles(v),
                _ => vstd::pervasive::unreached(),
            };
            let mut k: usize = 0;
            while k < entry_hs.len()
                invariant
                    rt.heap.wf(),
                    filters.valid_deep(rt.heap),
                    fd == filters.data(rt.heap),
                    fd.step_list != 0,
                    entry_hs@ == list_elems_at(rt.heap, fd.step_list),
                    k <= entry_hs@.len(),
                    ids@.len() == k,
                    forall|m: int|
                        0 <= m < k ==> ids@[m] == step_filter_ids(rt.heap, fd.step_list)[m],
                decreases entry_hs@.len() - k,
            {
                let jid = match rt.heap.read(entry_hs[k]) {
                    Payload::JobStepFilter(d) => d.jobid,
                    _ => vstd::pervasive::unreached(),
                };
                ids.push(jid);
                k = k + 1;
            }
        }
        proof {
            assert(ids@ =~= step_filter_ids(rt.heap, fd.step_list));
        }
        let ghost sel = step_filter_ids(rt.heap, fd.step_list);
        let ghost h0 = rt.heap;
        let ghost table = rt.acct_jobs@;
        let n = rt.acct_jobs.len();
        let mut rec_hs: Vec<RawHandle> = Vec::new();
        let mut i: usize = 0;
        while i < n
            invariant
                old(rt).wf(),
                rt.heap.wf(),
                extends(h0, rt.heap),
                rt.acct_jobs@ == table,
                rt.live_jobs == old(rt).live_jobs,
                rt.last_errno == old(rt).last_errno,
                rt.next_job_id == old(rt).next_job_id,
                rt.acct_jobs == old(rt).acct_jobs,
                n == table.len(),
                i <= n,
                ids@ == sel,
                rec_hs@.len() == matching_jobs(table.take(i as int), sel).len(),
                forall|k: int|
                    0 <= k < rec_hs@.len() ==> job_materialized(
                        rt.heap,
                        #[trigger] rec_hs@[k],
                        matching_jobs(table.take(i as int), sel)[k],
                    ),
                forall|k: int, m: int| 0 <= k < m < rec_hs@.len() ==> rec_hs@[k] != rec_hs@[m],
                forall|k: int| 0 <= k < rec_hs@.len() ==> rt.heap.live(#[trigger] rec_hs@[k]),
            decreases n - i,
        {
            let jobid = rt.acct_jobs[i].jobid;
            let selected = if ids.len() == 0 {
                true
            } else {
                ids_contains(&ids, jobid)
            };
            proof {
                lemma_matching_jobs_step(table, sel, i as int);
            }
            if selected {
                let ghost pre = rt.heap;
                let jh = materialize_job(&mut rt.heap, &rt.acct_jobs[i]);
                rec_hs.push(jh);
                proof {
                    crate::heap::lemma_extends_trans(h0, pre, rt.heap);
                    assert(matching_jobs(table.take(i + 1), sel) == matching_jobs(
                        table.take(i as int),
                        sel,
                    ).push(table[i as int]));
                    assert forall|k: int| 0 <= k < rec_hs@.len() implies job_materialized(
                        rt.heap,
                        #[trigger] rec_hs@[k],
                        matching_jobs(table.take(i + 1), sel)[k],
                    ) by {
                        if k < rec_hs@.len() - 1 {
                            lemma_job_materialized_extends(
                                pre,
                                rt.heap,
                                rec_hs@[k],
                                matching_jobs(table.take(i as int), sel)[k],
                            );
                        }
                    }
                }
            } else {
                proof {
                    assert(matching_jobs(table.take(i + 1), sel) =~= matching_jobs(
                        table.take(i as int),
                        sel,
                    ));
                }
            }
            i = i + 1;
        }
        proof {
            assert(table.take(n as int) =~= table);
        }
        let ghost rec_seq = rec_hs@;
        let ghost h1 = rt.heap;
        let lh = rt.heap.allocate(Payload::List(rec_hs));
        proof {
            crate::heap::lemma_extends_trans(h0, h1, rt.heap);
            assert(list_elems_at(rt.heap, lh) == rec_seq);
            assert forall|k: int| 0 <= k < rec_seq.len() implies job_materialized(
                rt.heap,
                #[trigger] rec_seq[k],
                matching_jobs(table, sel)[k],
            ) by {
                lemma_job_materialized_extends(
                    h1,
                    rt.heap,
                    rec_seq[k],
                    matching_jobs(table, sel)[k],
                );
            }
            if h0.live(lh) {
                assert(h1.live(lh));
            }
        }
        Ok(SlurmListOwned::assume_ownership(lh))
    }
}

impl DatabaseConnectionOwned {
    /// Connect to the Slurm accounting database.  The foreign call
    /// returns a pointer, so a null return signals failure and sends the
    /// caller to the errno register.
    pub fn new(rt: &mut SlurmRuntime) -> (r: Result<DatabaseConnectionOwned, SlurmError>)
        requires
            old(rt).wf(),
        ensures
            final(rt).wf(),
            final(rt).live_jobs == old(rt).live_jobs,
            final(rt).acct_jobs == old(rt).acct_jobs,
            old(rt).connect_fail_errno != 0 ==> {
                &&& r == Result::<DatabaseConnectionOwned, SlurmError>::Err(
                    spec_from_slurm(old(rt).connect_fail_errno),
                )
                &&& final(rt).last_errno == old(rt).connect_fail_errno
                &&& final(rt).heap == old(rt).heap
            },
            old(rt).connect_fail_errno == 0 ==> {
                &&& r matches Ok(c) && c.v.valid(final(rt).heap) && !old(rt).heap.live(c.addr())
                &&& extends(old(rt).heap, final(rt).heap)
                &&& final(rt).last_errno == old(rt).last_errno
            },
    {
        if rt.connect_fail_errno != 0 {
            rt.last_errno = rt.connect_fail_errno;
            let e = rt.get_last_errno();
            return Err(SlurmError::from_slurm(e));
        }
        let h = rt.heap.allocate(Payload::Connection);
        Ok(DatabaseConnectionOwned::assume_ownership(h))
    }
}

impl JobDescriptor {
    /// Submit this job to the batch processor.  On acceptance the server
    /// answers with a freshly allocated response message exposing the new
    /// job's id (never zero), the server's own error code, and its user
    /// message; on failure the errno register is set and read back.
    pub fn submit_batch(&self, rt: &mut SlurmRuntime) -> (r: Result<
        SubmitResponseMessageOwned,
        SlurmError,
    >)
        requires
            old(rt).wf(),
            self.valid(old(rt).heap),
        ensures
            final(rt).wf(),
            final(rt).live_jobs == old(rt).live_jobs,
            final(rt).acct_jobs == old(rt).acct_jobs,
            old(rt).submit_fail_errno != 0 ==> {
                &&& r == Result::<SubmitResponseMessageOwned, SlurmError>::Err(
                    spec_from_slurm(old(rt).submit_fail_errno),
                )
                &&& final(rt).last_errno == old(rt).submit_fail_errno
                &&& final(rt).heap == old(rt).heap
                &&& final(rt).next_job_id == old(rt).next_job_id
            },
            old(rt).submit_fail_errno == 0 ==> {
                &&& r matches Ok(m) && {
                    let d = m.v.data(final(rt).heap);
                    &&& m.v.valid(final(rt).heap)
                    &&& !old(rt).heap.live(m.addr())
                    &&& d.job_id == old(rt).next_job_id
                    &&& d.job_id != 0
                    &&& d.step_id == 0
                    &&& d.error_code == old(rt).submit_error_code
                    &&& final(rt).heap.is_str(d.job_submit_user_msg)
                    &&& final(rt).heap.str_at(d.job_submit_user_msg) == old(rt).submit_user_msg@
                }
                &&& extends(old(rt).heap, final(rt).heap)
                &&& final(rt).last_errno == old(rt).last_errno
                &&& final(rt).next_job_id == (if old(rt).next_job_id == 0x7fffffffu32 {
                    1u32
                } else {
                    (old(rt).next_job_id + 1) as u32
                })
            },
    {
        if rt.submit_fail_errno != 0 {
            rt.last_errno = rt.submit_fail_errno;
            let e = rt.get_last_errno();
            return Err(SlurmError::from_slurm(e));
        }
        let id = rt.next_job_id;
        // The model recycles ids once the range is exhausted.
        rt.next_job_id = if id == 0x7fffffffu32 {
            1
        } else {
            id + 1
        };
        let msg_text = rt.submit_user_msg.clone();
        let mh = crate::heap::slurm_alloc_utf8_string(&mut rt.heap, msg_text.as_str());
        let h = rt.heap.allocate(
            Payload::SubmitResponse(
                SubmitResponseData {
                    job_id: id,
                    step_id: 0,
                    error_code: rt.submit_error_code,
                    job_submit_user_msg: mh,
                },
            ),
        );
        Ok(SubmitResponseMessageOwned::assume_ownership(h))
    }
}

} // verus!
