//! Live-job information: the single-job info message and its embedded
//! job record.

use vstd::prelude::*;
use crate::error::{Error, SlurmError, ESLURM_INVALID_JOB_ID};
use crate::heap::{extends, JobInfoData, JobInfoMsgData, Payload, RawHandle, SlurmHeap};
use crate::runtime::{count_matching, lemma_count_matching_step, SlurmRuntime};
use crate::JobId;

verus! {

/// Information about a running job (borrowed view).
#[derive(Debug)]
pub struct JobInfo {
    pub h: RawHandle,
}

impl JobInfo {
    /// The raw handle this view wraps.
    pub open spec fn addr(self) -> RawHandle {
        self.h
    }

    /// The view designates a live job-info record.
    pub open spec fn valid(self, heap: SlurmHeap) -> bool {
        heap.live(self.h) && heap.payload_of(self.h) is JobInfo
    }

    /// The stored record fields.
    pub open spec fn data(self, heap: SlurmHeap) -> JobInfoData {
        heap.payload_of(self.h)->JobInfo_0
    }

    /// Get this job's ID.
    pub fn job_id(&self, heap: &SlurmHeap) -> (r: JobId)
        requires
            heap.wf(),
            self.valid(*heap),
        ensures
            r == self.data(*heap).job_id,
    {
        match heap.read(self.h) {
            Payload::JobInfo(d) => d.job_id,
            _ => vstd::pervasive::unreached(),
        }
    }

    /// Get the cluster partition on which this job resides.
    pub fn partition(&self, heap: &SlurmHeap) -> (r: String)
        requires
            heap.wf(),
            self.valid(*heap),
            heap.is_str(self.data(*heap).partition),
        ensures
            r@ == heap.str_at(self.data(*heap).partition),
    {
        let ph = match heap.read(self.h) {
            Payload::JobInfo(d) => d.partition,
            _ => vstd::pervasive::unreached(),
        };
        match heap.read(ph) {
            Payload::Str(s) => s.clone(),
            _ => vstd::pervasive::unreached(),
        }
    }
}

/// Information about a single job (borrowed view of the whole message).
///
/// The message embeds the job record it reports on; `job` hands out a
/// view of that record, which stays meaningful only while the message is
/// alive.
#[derive(Debug)]
pub struct SingleJobInfoMessage {
    pub h: RawHandle,
}

impl SingleJobInfoMessage {
    /// The raw handle this view wraps.
    pub open spec fn addr(self) -> RawHandle {
        self.h
    }

    /// The view designates a live info message.
    pub open spec fn valid(self, heap: SlurmHeap) -> bool {
        heap.live(self.h) && heap.payload_of(self.h) is JobInfoMsg
    }

    /// The stored message fields.
    pub open spec fn data(self, heap: SlurmHeap) -> JobInfoMsgData {
        heap.payload_of(self.h)->JobInfoMsg_0
    }

    /// The message is valid and its embedded record is a live job-info
    /// record — the state every message built by a query is in.
    pub open spec fn valid_deep(self, heap: SlurmHeap) -> bool {
        &&& self.valid(heap)
        &&& heap.live(self.data(heap).job_array)
        &&& heap.payload_of(self.data(heap).job_array) is JobInfo
    }

    /// How many job records the message reports on.
    pub fn record_count(&self, heap: &SlurmHeap) -> (r: u32)
        requires
            heap.wf(),
            self.valid(*heap),
        ensures
            r == self.data(*heap).record_count,
    {
        match heap.read(self.h) {
            Payload::JobInfoMsg(d) => d.record_count,
            _ => vstd::pervasive::unreached(),
        }
    }

    /// A view of the embedded job record, read straight out of the
    /// message's record field without any allocation; it is only
    /// meaningful while the message itself stays alive.
    pub fn job(&self, heap: &SlurmHeap) -> (r: JobInfo)
        requires
            heap.wf(),
            self.valid(*heap),
        ensures
            r.addr() == self.data(*heap).job_array,
    {
        let jh = match heap.read(self.h) {
            Payload::JobInfoMsg(d) => d.job_array,
            _ => vstd::pervasive::unreached(),
        };
        JobInfo { h: jh }
    }
}

/// An owned version of `SingleJobInfoMessage`.
#[derive(Debug)]
pub struct SingleJobInfoMessageOwned {
    pub v: SingleJobInfoMessage,
}

impl SingleJobInfoMessageOwned {
    /// The raw handle this wrapper owns.
    pub open spec fn addr(self) -> RawHandle {
        self.v.h
    }

    /// Borrow the message view.
    pub fn as_message(&self) -> (r: &SingleJobInfoMessage)
        ensures
            *r == self.v,
    {
        &self.v
    }

    /// Commit to releasing `h` exactly once; the usual path after a
    /// successful foreign call hands back a freshly allocated message.
    pub fn assume_ownership(h: RawHandle) -> (r: Self)
        ensures
            r.addr() == h,
    {
        SingleJobInfoMessageOwned { v: SingleJobInfoMessage { h } }
    }

    /// Release the message through its dedicated foreign destructor: the
    /// embedded record's partition string, the record, then the message.
    /// The handle is nulled, so a second call is a guaranteed no-op.
    pub fn destroy(&mut self, heap: &mut SlurmHeap)
        requires
            old(heap).wf(),
            old(self).addr() == 0 || old(self).v.valid_deep(*old(heap)),
        ensures
            final(heap).wf(),
            final(self).addr() == 0,
            old(self).addr() == 0 ==> *final(heap) == *old(heap),
            old(self).addr() != 0 ==> !final(heap).live(old(self).addr()),
            old(self).addr() != 0 ==> ({
                let jh = old(self).v.data(*old(heap)).job_array;
                let ph = old(heap).payload_of(jh)->JobInfo_0.partition;
                &&& !final(heap).live(jh)
                &&& (old(heap).is_str(ph) ==> !final(heap).live(ph))
            }),
    {
        if self.v.h == 0 {
            return ;
        }
        let ghost pre = *old(heap);
        let ghost msg0 = self.v.h;
        let jh = match heap.read(self.v.h) {
            Payload::JobInfoMsg(d) => d.job_array,
            _ => vstd::pervasive::unreached(),
        };
        let pd: JobInfoData = match heap.read(jh) {
            Payload::JobInfo(d) => *d,
            _ => vstd::pervasive::unreached(),
        };
        let mut partition = pd.partition;
        crate::heap::slurm_free_str_checked(heap, &mut partition);
        let mut job = jh;
        crate::heap::slurm_free(heap, &mut job);
        proof {
            crate::heap::lemma_live_nonzero(pre, jh);
            assert(jh != msg0);
            if pre.is_str(pd.partition) {
                assert(pd.partition != jh && pd.partition != msg0);
                assert(!heap.live(pd.partition));
            }
        }
        crate::heap::slurm_free(heap, &mut self.v.h);
    }
}

/// Get information about a single job.
///
/// The job must still be running: for an id the live-job subsystem no
/// longer knows, the foreign load reports failure, the errno register is
/// read, and the result is exactly the well-known invalid-job-id error —
/// never a generic fallback.  A successful load is checked to carry
/// exactly one record; any other count is surfaced as a local validation
/// error with the offending count.
pub fn get_job_info(rt: &mut SlurmRuntime, jid: JobId) -> (r: Result<
    SingleJobInfoMessageOwned,
    Error,
>)
    requires
        old(rt).wf(),
    ensures
        final(rt).wf(),
        final(rt).live_jobs == old(rt).live_jobs,
        final(rt).acct_jobs == old(rt).acct_jobs,
        ({
            let n = count_matching(old(rt).live_jobs@, jid);
            &&& (n == 0 ==> {
                &&& r == Result::<SingleJobInfoMessageOwned, Error>::Err(
                    Error::Slurm(SlurmError::InvalidJobId),
                )
                &&& final(rt).last_errno == ESLURM_INVALID_JOB_ID
                &&& final(rt).heap == old(rt).heap
            })
            &&& (n > 1 ==> {
                &&& r == Result::<SingleJobInfoMessageOwned, Error>::Err(
                    Error::RecordCountMismatch { jobid: jid, count: n as u32 },
                )
                &&& final(rt).last_errno == old(rt).last_errno
                &&& final(rt).heap == old(rt).heap
            })
            &&& (n == 1 ==> {
                &&& r matches Ok(m) && {
                    let md = m.v.data(final(rt).heap);
                    let ji = final(rt).heap.payload_of(md.job_array)->JobInfo_0;
                    &&& m.v.valid_deep(final(rt).heap)
                    &&& !old(rt).heap.live(m.addr())
                    &&& md.record_count == 1
                    &&& ji.job_id == jid
                    &&& final(rt).heap.is_str(ji.partition)
                    &&& exists|i: int|
                        0 <= i < old(rt).live_jobs@.len() && (#[trigger] old(
                            rt,
                        ).live_jobs@[i]).job_id == jid && final(rt).heap.str_at(ji.partition)
                            == old(rt).live_jobs@[i].partition@
                }
                &&& extends(old(rt).heap, final(rt).heap)
                &&& final(rt).last_errno == old(rt).last_errno
            })
        }),
{
    let n = rt.live_jobs.len();
    let mut count: usize = 0;
    let mut idx: usize = 0;
    let mut i: usize = 0;
    while i < n
        invariant
            *rt == *old(rt),
            n == rt.live_jobs@.len(),
            i <= n,
            count == count_matching(rt.live_jobs@.take(i as int), jid),
            count <= i,
            count > 0 ==> idx < i && rt.live_jobs@[idx as int].job_id == jid,
        decreases n - i,
    {
        proof {
            lemma_count_matching_step(rt.live_jobs@, jid, i as int);
        }
        if rt.live_jobs[i].job_id == jid {
            count = count + 1;
            idx = i;
        }
        i = i + 1;
    }
    proof {
        assert(rt.live_jobs@.take(n as int) =~= rt.live_jobs@);
    }
    if count == 0 {
        rt.last_errno = ESLURM_INVALID_JOB_ID;
        let e = rt.get_last_errno();
        return Err(Error::Slurm(SlurmError::from_slurm(e)));
    }
    if count != 1 {
        return Err(Error::RecordCountMismatch { jobid: jid, count: count as u32 });
    }
    let partition = rt.live_jobs[idx].partition.clone();
    let ghost h0 = rt.heap;
    let ph = crate::heap::slurm_alloc_utf8_string(&mut rt.heap, partition.as_str());
    let ghost h1 = rt.heap;
    let jh = rt.heap.allocate(Payload::JobInfo(JobInfoData { job_id: jid, partition: ph }));
    let ghost h2 = rt.heap;
    let mh = rt.heap.allocate(
        Payload::JobInfoMsg(JobInfoMsgData { record_count: 1, job_array: jh }),
    );
    proof {
        crate::heap::lemma_extends_trans(h0, h1, h2);
        crate::heap::lemma_extends_trans(h0, h2, rt.heap);
        if h0.live(mh) {
            assert(h2.live(mh));
        }
        assert(0 <= idx < old(rt).live_jobs@.len() && old(rt).live_jobs@[idx as int].job_id
            == jid && rt.heap.str_at(ph) == old(rt).live_jobs@[idx as int].partition@);
    }
    Ok(SingleJobInfoMessageOwned::assume_ownership(mh))
}

} // verus!
