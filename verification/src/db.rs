//! Accounting-database entities: job and step records, query filters, and
//! the connection handle.
//!
//! Each foreign structure is exposed through a borrowed view (a bare
//! handle with typed accessors) and, where the binding ever owns one, an
//! owned wrapper that releases it exactly once.  Accessors translate raw
//! fields into host-native values: C strings become text, Unix-second
//! fields with the reserved zero sentinel become optional timestamps, and
//! paired timestamps combine into optional durations that exist only when
//! both endpoints do.

use vstd::prelude::*;
use crate::heap::{
    freed_once, unchanged_except, JobFiltersData, JobRecordData, JobStepFilterData, Payload,
    RawHandle, SharedAcctFields, SlurmHeap, StepRecordData, SLURM_NO_VAL, SLURM_NO_VAL64,
};
use crate::list::{SlurmList, UnownedFromSlurmPointer};
use crate::{JobId, StepId};

verus! {

/// A timestamp field under the zero-sentinel convention: the reserved
/// value `0` means "not set" and never the epoch itself.
pub open spec fn spec_ts_opt(raw: i64) -> Option<i64> {
    if raw == 0 {
        None
    } else {
        Some(raw)
    }
}

/// The duration between two sentinel-carrying timestamps: present exactly
/// when both endpoints are present, and then equal to `until - since`.
pub open spec fn spec_dur_opt(since: i64, until: i64) -> Option<i64> {
    if since != 0 && until != 0 {
        Some((until - since) as i64)
    } else {
        None
    }
}

/// A timestamp-sentinel accessor yields no value exactly on the reserved
/// zero, and otherwise the raw value itself, read as seconds since the
/// Unix epoch.
pub proof fn lemma_sentinel_timestamp(raw: i64)
    ensures
        spec_ts_opt(raw) is None <==> raw == 0,
        raw != 0 ==> spec_ts_opt(raw) == Some(raw),
{
}

/// A paired-timestamp duration is present if and only if both endpoints
/// are present, and is then exactly their difference (the in-range bounds
/// make the subtraction exact).
pub proof fn lemma_duration_iff(since: i64, until: i64)
    requires
        0 <= since <= crate::heap::MAX_TIMESTAMP,
        0 <= until <= crate::heap::MAX_TIMESTAMP,
    ensures
        spec_dur_opt(since, until) is Some <==> (spec_ts_opt(since) is Some && spec_ts_opt(
            until,
        ) is Some),
        spec_dur_opt(since, until) matches Some(d) ==> d == until - since,
{
}

/// Job states reported by the foreign state codes, in the foreign
/// enumeration's order.
#[derive(Clone, Copy, Debug, PartialEq, Eq, Structural)]
pub enum JobState {
    Pending,
    Running,
    Suspended,
    Complete,
    Cancelled,
    Failed,
    Timeout,
    NodeFail,
    Preempted,
    BootFail,
    Deadline,
    OutOfMemory,
}

/// The state named by a raw foreign state code, if any.
pub open spec fn spec_job_state(code: u32) -> Option<JobState> {
    if code == 0 {
        Some(JobState::Pending)
    } else if code == 1 {
        Some(JobState::Running)
    } else if code == 2 {
        Some(JobState::Suspended)
    } else if code == 3 {
        Some(JobState::Complete)
    } else if code == 4 {
        Some(JobState::Cancelled)
    } else if code == 5 {
        Some(JobState::Failed)
    } else if code == 6 {
        Some(JobState::Timeout)
    } else if code == 7 {
        Some(JobState::NodeFail)
    } else if code == 8 {
        Some(JobState::Preempted)
    } else if code == 9 {
        Some(JobState::BootFail)
    } else if code == 10 {
        Some(JobState::Deadline)
    } else if code == 11 {
        Some(JobState::OutOfMemory)
    } else {
        None
    }
}

impl JobState {
    /// Decode a raw foreign state code.
    pub fn from_code(code: u32) -> (r: Option<JobState>)
        ensures
            r == spec_job_state(code),
    {
        if code == 0 {
            Some(JobState::Pending)
        } else if code == 1 {
            Some(JobState::Running)
        } else if code == 2 {
            Some(JobState::Suspended)
        } else if code == 3 {
            Some(JobState::Complete)
        } else if code == 4 {
            Some(JobState::Cancelled)
        } else if code == 5 {
            Some(JobState::Failed)
        } else if code == 6 {
            Some(JobState::Timeout)
        } else if code == 7 {
            Some(JobState::NodeFail)
        } else if code == 8 {
            Some(JobState::Preempted)
        } else if code == 9 {
            Some(JobState::BootFail)
        } else if code == 10 {
            Some(JobState::Deadline)
        } else if code == 11 {
            Some(JobState::OutOfMemory)
        } else {
            None
        }
    }
}

/// Fields common to job-level and step-level accounting records: the
/// foreign structures duplicate this subset, so the conversions are
/// written once and shared by both record types.
pub trait JobStepRecordSharedFields: Sized {
    /// The shared accounting fields as stored in the heap.
    spec fn spec_shared(self, heap: SlurmHeap) -> SharedAcctFields;

    /// The record is live in the heap with its expected payload.
    spec fn shared_valid(self, heap: SlurmHeap) -> bool;

    /// Get the job/step's end time, or `None` if it has not yet ended.
    fn end_time(&self, heap: &SlurmHeap) -> (r: Option<i64>)
        requires
            heap.wf(),
            self.shared_valid(*heap),
        ensures
            r == spec_ts_opt(self.spec_shared(*heap).end),
    ;

    /// Get the job/step's exit code, or `None` if it has not yet ended.
    fn exit_code(&self, heap: &SlurmHeap) -> (r: Option<i32>)
        requires
            heap.wf(),
            self.shared_valid(*heap),
        ensures
            self.spec_shared(*heap).end == 0 ==> r is None,
            self.spec_shared(*heap).end != 0 ==> r == Some(self.spec_shared(*heap).exitcode),
    ;

    /// Get the maximum virtual-memory size of the job/step in kibibytes,
    /// or `None` while the record's reserved sentinel is still in place.
    fn max_vm_size(&self, heap: &SlurmHeap) -> (r: Option<u64>)
        requires
            heap.wf(),
            self.shared_valid(*heap),
        ensures
            self.spec_shared(*heap).vsize_max == SLURM_NO_VAL64 ==> r is None,
            self.spec_shared(*heap).vsize_max != SLURM_NO_VAL64 ==> r == Some(
                self.spec_shared(*heap).vsize_max,
            ),
    ;

    /// Get the job/step's start time, or `None` if it has not yet started.
    fn start_time(&self, heap: &SlurmHeap) -> (r: Option<i64>)
        requires
            heap.wf(),
            self.shared_valid(*heap),
        ensures
            r == spec_ts_opt(self.spec_shared(*heap).start),
    ;

    /// Get the wallclock time taken by the job/step — end time minus start
    /// time, in seconds — or `None` unless both endpoints are recorded.
    fn wallclock_duration(&self, heap: &SlurmHeap) -> (r: Option<i64>)
        requires
            heap.wf(),
            self.shared_valid(*heap),
        ensures
            r == spec_dur_opt(self.spec_shared(*heap).start, self.spec_shared(*heap).end),
    ;
}

/// End time under the zero sentinel.
pub fn shared_end_time(f: &SharedAcctFields) -> (r: Option<i64>)
    ensures
        r == spec_ts_opt(f.end),
{
    if f.end == 0 {
        None
    } else {
        Some(f.end)
    }
}

/// Start time under the zero sentinel.
pub fn shared_start_time(f: &SharedAcctFields) -> (r: Option<i64>)
    ensures
        r == spec_ts_opt(f.start),
{
    if f.start == 0 {
        None
    } else {
        Some(f.start)
    }
}

/// Exit code, present only once the record has ended.
pub fn shared_exit_code(f: &SharedAcctFields) -> (r: Option<i32>)
    ensures
        f.end == 0 ==> r is None,
        f.end != 0 ==> r == Some(f.exitcode),
{
    if f.end == 0 {
        None
    } else {
        Some(f.exitcode)
    }
}

/// Peak virtual-memory size under the 64-bit sentinel.
pub fn shared_max_vm_size(f: &SharedAcctFields) -> (r: Option<u64>)
    ensures
        f.vsize_max == SLURM_NO_VAL64 ==> r is None,
        f.vsize_max != SLURM_NO_VAL64 ==> r == Some(f.vsize_max),
{
    if f.vsize_max == SLURM_NO_VAL64 {
        None
    } else {
        Some(f.vsize_max)
    }
}

/// Wallclock duration, composed by explicit conditional combination of the
/// two endpoints — never inferred from one side alone.
pub fn shared_wallclock_duration(f: &SharedAcctFields) -> (r: Option<i64>)
    requires
        f.wf(),
    ensures
        r == spec_dur_opt(f.start, f.end),
{
    let start = shared_start_time(f);
    let end = shared_end_time(f);
    match (start, end) {
        (Some(s), Some(e)) => Some(e - s),
        _ => None,
    }
}

/// Accounting information about a job (borrowed view).
#[derive(Debug)]
pub struct JobRecord {
    pub h: RawHandle,
}

impl JobRecord {
    /// The raw handle this view wraps.
    pub open spec fn addr(self) -> RawHandle {
        self.h
    }

    /// The view designates a live accounting job record.
    pub open spec fn valid(self, heap: SlurmHeap) -> bool {
        heap.live(self.h) && heap.payload_of(self.h) is JobRecord
    }

    /// The stored record fields.
    pub open spec fn data(self, heap: SlurmHeap) -> JobRecordData {
        heap.payload_of(self.h)->JobRecord_0
    }

    /// Get the job's ID number.
    pub fn job_id(&self, heap: &SlurmHeap) -> (r: JobId)
        requires
            heap.wf(),
            self.valid(*heap),
        ensures
            r == self.data(*heap).jobid,
    {
        match heap.read(self.h) {
            Payload::JobRecord(d) => d.jobid,
            _ => vstd::pervasive::unreached(),
        }
    }

    /// Get the enclosing array job's master ID, or `None` for a job that
    /// is not part of an array (raw value zero).
    pub fn array_job_id(&self, heap: &SlurmHeap) -> (r: Option<JobId>)
        requires
            heap.wf(),
            self.valid(*heap),
        ensures
            self.data(*heap).array_job_id == 0 ==> r is None,
            self.data(*heap).array_job_id != 0 ==> r == Some(self.data(*heap).array_job_id),
    {
        match heap.read(self.h) {
            Payload::JobRecord(d) => if d.array_job_id == 0 {
                None
            } else {
                Some(d.array_job_id)
            },
            _ => vstd::pervasive::unreached(),
        }
    }

    /// The ID jobs group under: the array master ID when the job belongs
    /// to an array, else the job's own ID.
    pub fn group_id(&self, heap: &SlurmHeap) -> (r: JobId)
        requires
            heap.wf(),
            self.valid(*heap),
        ensures
            self.data(*heap).array_job_id != 0 ==> r == self.data(*heap).array_job_id,
            self.data(*heap).array_job_id == 0 ==> r == self.data(*heap).jobid,
    {
        match self.array_job_id(heap) {
            Some(id) => id,
            None => self.job_id(heap),
        }
    }

    /// Get the job's raw state code.
    pub fn state(&self, heap: &SlurmHeap) -> (r: u32)
        requires
            heap.wf(),
            self.valid(*heap),
        ensures
            r == self.data(*heap).state,
    {
        match heap.read(self.h) {
            Payload::JobRecord(d) => d.state,
            _ => vstd::pervasive::unreached(),
        }
    }

    /// Get the job's name.
    pub fn job_name(&self, heap: &SlurmHeap) -> (r: String)
        requires
            heap.wf(),
            self.valid(*heap),
            heap.is_str(self.data(*heap).jobname),
        ensures
            r@ == heap.str_at(self.data(*heap).jobname),
    {
        let name_h = match heap.read(self.h) {
            Payload::JobRecord(d) => d.jobname,
            _ => vstd::pervasive::unreached(),
        };
        match heap.read(name_h) {
            Payload::Str(s) => s.clone(),
            _ => vstd::pervasive::unreached(),
        }
    }

    /// Get the job's submission time, as seconds since the Unix epoch.
    pub fn submit_time(&self, heap: &SlurmHeap) -> (r: i64)
        requires
            heap.wf(),
            self.valid(*heap),
        ensures
            r == self.data(*heap).submit,
    {
        match heap.read(self.h) {
            Payload::JobRecord(d) => d.submit,
            _ => vstd::pervasive::unreached(),
        }
    }

    /// Get the job's "eligible" time, or `None` if the job is not yet
    /// eligible to run.
    pub fn eligible_time(&self, heap: &SlurmHeap) -> (r: Option<i64>)
        requires
            heap.wf(),
            self.valid(*heap),
        ensures
            r == spec_ts_opt(self.data(*heap).eligible),
    {
        match heap.read(self.h) {
            Payload::JobRecord(d) => if d.eligible == 0 {
                None
            } else {
                Some(d.eligible)
            },
            _ => vstd::pervasive::unreached(),
        }
    }

    /// Get the job's time limit in minutes.
    pub fn time_limit(&self, heap: &SlurmHeap) -> (r: u32)
        requires
            heap.wf(),
            self.valid(*heap),
        ensures
            r == self.data(*heap).timelimit,
    {
        match heap.read(self.h) {
            Payload::JobRecord(d) => d.timelimit,
            _ => vstd::pervasive::unreached(),
        }
    }

    /// Get the wallclock time spent waiting for the job to become
    /// eligible, or `None` if the job has not yet become eligible to run.
    pub fn eligible_wait_duration(&self, heap: &SlurmHeap) -> (r: Option<i64>)
        requires
            heap.wf(),
            self.valid(*heap),
        ensures
            r == spec_dur_opt(self.data(*heap).submit, self.data(*heap).eligible),
    {
        proof {
            assert(crate::heap::payload_wf(heap.payload_of(self.h)));
        }
        let d: JobRecordData = match heap.read(self.h) {
            Payload::JobRecord(d) => *d,
            _ => vstd::pervasive::unreached(),
        };
        if d.submit != 0 && d.eligible != 0 {
            Some(d.eligible - d.submit)
        } else {
            None
        }
    }

    /// Get the wallclock time spent waiting for the job to start — this
    /// includes the time waiting to become eligible — or `None` if the
    /// job has not yet started.
    pub fn wait_duration(&self, heap: &SlurmHeap) -> (r: Option<i64>)
        requires
            heap.wf(),
            self.valid(*heap),
        ensures
            r == spec_dur_opt(self.data(*heap).submit, self.data(*heap).shared.start),
    {
        proof {
            assert(crate::heap::payload_wf(heap.payload_of(self.h)));
        }
        let d: JobRecordData = match heap.read(self.h) {
            Payload::JobRecord(d) => *d,
            _ => vstd::pervasive::unreached(),
        };
        if d.submit != 0 && d.shared.start != 0 {
            Some(d.shared.start - d.submit)
        } else {
            None
        }
    }

    /// The job's steps, as a borrowed list view owned by this record.
    pub fn steps(&self, heap: &SlurmHeap) -> (r: SlurmList<StepRecord>)
        requires
            heap.wf(),
            self.valid(*heap),
        ensures
            r.addr() == self.data(*heap).steps,
    {
        let steps_h = match heap.read(self.h) {
            Payload::JobRecord(d) => d.steps,
            _ => vstd::pervasive::unreached(),
        };
        SlurmList::from_raw(steps_h)
    }
}

impl UnownedFromSlurmPointer for JobRecord {
    open spec fn spec_handle(self) -> RawHandle {
        self.h
    }

    fn unowned_from_slurm_pointer(ptr: RawHandle) -> (r: Self) {
        JobRecord { h: ptr }
    }
}

impl JobStepRecordSharedFields for JobRecord {
    open spec fn spec_shared(self, heap: SlurmHeap) -> SharedAcctFields {
        self.data(heap).shared
    }

    open spec fn shared_valid(self, heap: SlurmHeap) -> bool {
        self.valid(heap)
    }

    fn end_time(&self, heap: &SlurmHeap) -> (r: Option<i64>) {
        match heap.read(self.h) {
            Payload::JobRecord(d) => shared_end_time(&d.shared),
            _ => vstd::pervasive::unreached(),
        }
    }

    fn exit_code(&self, heap: &SlurmHeap) -> (r: Option<i32>) {
        match heap.read(self.h) {
            Payload::JobRecord(d) => shared_exit_code(&d.shared),
            _ => vstd::pervasive::unreached(),
        }
    }

    fn max_vm_size(&self, heap: &SlurmHeap) -> (r: Option<u64>) {
        match heap.read(self.h) {
            Payload::JobRecord(d) => shared_max_vm_size(&d.shared),
            _ => vstd::pervasive::unreached(),
        }
    }

    fn start_time(&self, heap: &SlurmHeap) -> (r: Option<i64>) {
        match heap.read(self.h) {
            Payload::JobRecord(d) => shared_start_time(&d.shared),
            _ => vstd::pervasive::unreached(),
        }
    }

    fn wallclock_duration(&self, heap: &SlurmHeap) -> (r: Option<i64>) {
        proof {
            assert(crate::heap::payload_wf(heap.payload_of(self.h)));
        }
        match heap.read(self.h) {
            Payload::JobRecord(d) => shared_wallclock_duration(&d.shared),
            _ => vstd::pervasive::unreached(),
        }
    }
}

/// Accounting information about a step within a job (borrowed view).
#[derive(Debug)]
pub struct StepRecord {
    pub h: RawHandle,
}

impl StepRecord {
    /// The raw handle this view wraps.
    pub open spec fn addr(self) -> RawHandle {
        self.h
    }

    /// The view designates a live accounting step record.
    pub open spec fn valid(self, heap: SlurmHeap) -> bool {
        heap.live(self.h) && heap.payload_of(self.h) is StepRecord
    }

    /// The stored record fields.
    pub open spec fn data(self, heap: SlurmHeap) -> StepRecordData {
        heap.payload_of(self.h)->StepRecord_0
    }

    /// Get the step's ID.
    pub fn step_id(&self, heap: &SlurmHeap) -> (r: StepId)
        requires
            heap.wf(),
            self.valid(*heap),
        ensures
            r == self.data(*heap).stepid,
    {
        match heap.read(self.h) {
            Payload::StepRecord(d) => d.stepid,
            _ => vstd::pervasive::unreached(),
        }
    }

    /// Get the step's name.
    pub fn step_name(&self, heap: &SlurmHeap) -> (r: String)
        requires
            heap.wf(),
            self.valid(*heap),
            heap.is_str(self.data(*heap).stepname),
        ensures
            r@ == heap.str_at(self.data(*heap).stepname),
    {
        let name_h = match heap.read(self.h) {
            Payload::StepRecord(d) => d.stepname,
            _ => vstd::pervasive::unreached(),
        };
        match heap.read(name_h) {
            Payload::Str(s) => s.clone(),
            _ => vstd::pervasive::unreached(),
        }
    }
}

impl UnownedFromSlurmPointer for StepRecord {
    open spec fn spec_handle(self) -> RawHandle {
        self.h
    }

    fn unowned_from_slurm_pointer(ptr: RawHandle) -> (r: Self) {
        StepRecord { h: ptr }
    }
}

impl JobStepRecordSharedFields for StepRecord {
    open spec fn spec_shared(self, heap: SlurmHeap) -> SharedAcctFields {
        self.data(heap).shared
    }

    open spec fn shared_valid(self, heap: SlurmHeap) -> bool {
        self.valid(heap)
    }

    fn end_time(&self, heap: &SlurmHeap) -> (r: Option<i64>) {
        match heap.read(self.h) {
            Payload::StepRecord(d) => shared_end_time(&d.shared),
            _ => vstd::pervasive::unreached(),
        }
    }

    fn exit_code(&self, heap: &SlurmHeap) -> (r: Option<i32>) {
        match heap.read(self.h) {
            Payload::StepRecord(d) => shared_exit_code(&d.shared),
            _ => vstd::pervasive::unreached(),
        }
    }

    fn max_vm_size(&self, heap: &SlurmHeap) -> (r: Option<u64>) {
        match heap.read(self.h) {
            Payload::StepRecord(d) => shared_max_vm_size(&d.shared),
            _ => vstd::pervasive::unreached(),
        }
    }

    fn start_time(&self, heap: &SlurmHeap) -> (r: Option<i64>) {
        match heap.read(self.h) {
            Payload::StepRecord(d) => shared_start_time(&d.shared),
            _ => vstd::pervasive::unreached(),
        }
    }

    fn wallclock_duration(&self, heap: &SlurmHeap) -> (r: Option<i64>) {
        proof {
            assert(crate::heap::payload_wf(heap.payload_of(self.h)));
        }
        match heap.read(self.h) {
            Payload::StepRecord(d) => shared_wallclock_duration(&d.shared),
            _ => vstd::pervasive::unreached(),
        }
    }
}

/// A filter for selecting jobs and job steps (borrowed view).
#[derive(Debug)]
pub struct JobStepFilter {
    pub h: RawHandle,
}

impl JobStepFilter {
    /// The raw handle this view wraps.
    pub open spec fn addr(self) -> RawHandle {
        self.h
    }

    /// The view designates a live step-filter entry.
    pub open spec fn valid(self, heap: SlurmHeap) -> bool {
        heap.live(self.h) && heap.payload_of(self.h) is JobStepFilter
    }

    /// The stored filter fields.
    pub open spec fn data(self, heap: SlurmHeap) -> JobStepFilterData {
        heap.payload_of(self.h)->JobStepFilter_0
    }

    /// The job ID this filter entry selects.
    pub fn jobid(&self, heap: &SlurmHeap) -> (r: JobId)
        requires
            heap.wf(),
            self.valid(*heap),
        ensures
            r == self.data(*heap).jobid,
    {
        match heap.read(self.h) {
            Payload::JobStepFilter(d) => d.jobid,
            _ => vstd::pervasive::unreached(),
        }
    }
}

impl UnownedFromSlurmPointer for JobStepFilter {
    open spec fn spec_handle(self) -> RawHandle {
        self.h
    }

    fn unowned_from_slurm_pointer(ptr: RawHandle) -> (r: Self) {
        JobStepFilter { h: ptr }
    }
}

/// An owned version of `JobStepFilter`.
#[derive(Debug)]
pub struct JobStepFilterOwned {
    pub v: JobStepFilter,
}

impl JobStepFilterOwned {
    /// The raw handle this wrapper owns.
    pub open spec fn addr(self) -> RawHandle {
        self.v.h
    }

    /// Create a new job step filter selecting exactly job `jid`: every
    /// other selector starts at the reserved "no value" sentinel.
    pub fn new(heap: &mut SlurmHeap, jid: JobId) -> (r: Self)
        requires
            old(heap).wf(),
        ensures
            final(heap).wf(),
            crate::heap::extends(*old(heap), *final(heap)),
            unchanged_except(*old(heap), *final(heap), r.addr()),
            !old(heap).live(r.addr()),
            r.v.valid(*final(heap)),
            r.v.data(*final(heap)) == (JobStepFilterData {
                array_task_id: SLURM_NO_VAL,
                jobid: jid,
                pack_job_offset: SLURM_NO_VAL,
                stepid: SLURM_NO_VAL,
            }),
    {
        let h = crate::heap::slurm_alloc(
            heap,
            Payload::JobStepFilter(
                JobStepFilterData {
                    array_task_id: SLURM_NO_VAL,
                    jobid: jid,
                    pack_job_offset: SLURM_NO_VAL,
                    stepid: SLURM_NO_VAL,
                },
            ),
        );
        JobStepFilterOwned { v: JobStepFilter { h } }
    }

    /// Surrender the wrapped view without releasing it; the foreign list
    /// the view is appended to takes over the lifetime.
    pub fn give_up_ownership(self) -> (r: JobStepFilter)
        ensures
            r == self.v,
    {
        self.v
    }

    /// Commit to releasing `h` exactly once.
    pub fn assume_ownership(h: RawHandle) -> (r: Self)
        ensures
            r.addr() == h,
    {
        JobStepFilterOwned { v: JobStepFilter { h } }
    }

    /// Release the filter entry through its dedicated foreign destructor.
    /// The handle is nulled, so a second call is a guaranteed no-op.
    pub fn destroy(&mut self, heap: &mut SlurmHeap)
        requires
            old(heap).wf(),
            old(self).addr() == 0 || old(heap).live(old(self).addr()),
        ensures
            final(heap).wf(),
            final(self).addr() == 0,
            freed_once(*old(heap), *final(heap), old(self).addr()),
    {
        crate::heap::slurm_free(heap, &mut self.v.h);
    }
}

impl SlurmList<JobStepFilter> {
    /// Append `item` to the list, transferring the element's lifetime to
    /// the list.  An absent list is lazily created first (registering the
    /// step filter's destructor for later element cleanup), so appending
    /// to a null view turns it into a view of a fresh one-element list.
    pub fn append(&mut self, heap: &mut SlurmHeap, item: JobStepFilterOwned)
        requires
            old(heap).wf(),
            old(self).valid(*old(heap)),
            item.v.valid(*old(heap)),
        ensures
            final(heap).wf(),
            final(self).valid(*final(heap)),
            final(self).addr() != 0,
            old(self).addr() != 0 ==> final(self).addr() == old(self).addr(),
            old(self).addr() == 0 ==> !old(heap).live(final(self).addr()),
            final(self).elems(*final(heap)) == old(self).elems(*old(heap)).push(item.addr()),
            unchanged_except(*old(heap), *final(heap), final(self).addr()),
            final(heap).payload_of(item.addr()) == old(heap).payload_of(item.addr()),
            final(heap).live(item.addr()),
    {
        let item_view = item.give_up_ownership();
        if self.h == 0 {
            let lh = heap.allocate(Payload::List(Vec::new()));
            self.h = lh;
        }
        let mut elems = match heap.read(self.h) {
            Payload::List(v) => crate::heap::clone_handles(v),
            _ => vstd::pervasive::unreached(),
        };
        elems.push(item_view.h);
        heap.write(self.h, Payload::List(elems));
    }
}

/// A set of filters for identifying jobs of interest when querying the
/// Slurm accounting database (borrowed view).
#[derive(Debug)]
pub struct JobFilters {
    pub h: RawHandle,
}

impl JobFilters {
    /// The raw handle this view wraps.
    pub open spec fn addr(self) -> RawHandle {
        self.h
    }

    /// The view designates a live filter structure.
    pub open spec fn valid(self, heap: SlurmHeap) -> bool {
        heap.live(self.h) && heap.payload_of(self.h) is JobFilters
    }

    /// The stored filter fields.
    pub open spec fn data(self, heap: SlurmHeap) -> JobFiltersData {
        heap.payload_of(self.h)->JobFilters_0
    }

    /// The view is valid and its embedded step-list handle is null or
    /// designates a live list of live step-filter entries — the state
    /// every filter built through this crate is in.
    pub open spec fn valid_deep(self, heap: SlurmHeap) -> bool {
        &&& self.valid(heap)
        &&& (self.data(heap).step_list == 0 || {
            let lh = self.data(heap).step_list;
            &&& heap.live(lh)
            &&& heap.payload_of(lh) is List
            &&& forall|k: int|
                0 <= k < heap.payload_of(lh)->List_0@.len() ==> {
                    let e = #[trigger] heap.payload_of(lh)->List_0@[k];
                    heap.live(e) && heap.payload_of(e) is JobStepFilter
                }
        })
    }

    /// The list of step filters, as a borrowed view; null when no filter
    /// has been attached yet.
    pub fn step_list(&self, heap: &SlurmHeap) -> (r: SlurmList<JobStepFilter>)
        requires
            heap.wf(),
            self.valid(*heap),
        ensures
            r.addr() == self.data(*heap).step_list,
    {
        let sl = match heap.read(self.h) {
            Payload::JobFilters(d) => d.step_list,
            _ => vstd::pervasive::unreached(),
        };
        SlurmList::from_raw(sl)
    }

    /// The step-filter list, materialized for mutation: an absent list is
    /// created first and recorded in the filter structure, so the returned
    /// view is always backed by a live list.
    pub fn step_list_mut(&self, heap: &mut SlurmHeap) -> (r: SlurmList<JobStepFilter>)
        requires
            old(heap).wf(),
            self.valid_deep(*old(heap)),
        ensures
            final(heap).wf(),
            self.valid_deep(*final(heap)),
            crate::heap::extends_except(*old(heap), *final(heap), self.addr()),
            r.addr() == self.data(*final(heap)).step_list,
            r.addr() != 0,
            r.valid(*final(heap)),
            self.data(*old(heap)).step_list != 0 ==> *final(heap) == *old(heap)
                && r.addr() == self.data(*old(heap)).step_list,
            self.data(*old(heap)).step_list == 0 ==> r.elems(*final(heap)) == Seq::<
                RawHandle,
            >::empty() && self.data(*final(heap)) == (JobFiltersData {
                step_list: r.addr(),
                ..self.data(*old(heap))
            }),
    {
        let d: JobFiltersData = match heap.read(self.h) {
            Payload::JobFilters(d) => *d,
            _ => vstd::pervasive::unreached(),
        };
        if d.step_list != 0 {
            return SlurmList::from_raw(d.step_list);
        }
        let lh = heap.allocate(Payload::List(Vec::new()));
        heap.write(
            self.h,
            Payload::JobFilters(JobFiltersData { step_list: lh, ..d }),
        );
        SlurmList::from_raw(lh)
    }
}

/// An owned version of `JobFilters`.
#[derive(Debug)]
pub struct JobFiltersOwned {
    pub v: JobFilters,
}

impl JobFiltersOwned {
    /// The raw handle this wrapper owns.
    pub open spec fn addr(self) -> RawHandle {
        self.v.h
    }

    /// Allocate a zeroed filter structure and apply the library's default:
    /// usage truncation disabled (`without_usage_truncation = 1`), no step
    /// filters attached.
    pub fn default(heap: &mut SlurmHeap) -> (r: Self)
        requires
            old(heap).wf(),
        ensures
            final(heap).wf(),
            crate::heap::extends(*old(heap), *final(heap)),
            unchanged_except(*old(heap), *final(heap), r.addr()),
            !old(heap).live(r.addr()),
            r.v.valid(*final(heap)),
            r.v.data(*final(heap)) == (JobFiltersData { step_list: 0, without_usage_truncation: 1 }),
    {
        let h = crate::heap::slurm_alloc(
            heap,
            Payload::JobFilters(JobFiltersData { step_list: 0, without_usage_truncation: 0 }),
        );
        let d: JobFiltersData = match heap.read(h) {
            Payload::JobFilters(d) => *d,
            _ => vstd::pervasive::unreached(),
        };
        heap.write(
            h,
            Payload::JobFilters(JobFiltersData { without_usage_truncation: 1, ..d }),
        );
        JobFiltersOwned { v: JobFilters { h } }
    }

    /// Borrow the filter view.
    pub fn as_filters(&self) -> (r: &JobFilters)
        ensures
            *r == self.v,
    {
        &self.v
    }

    /// Surrender the wrapped view without releasing it.
    pub fn give_up_ownership(self) -> (r: JobFilters)
        ensures
            r == self.v,
    {
        self.v
    }

    /// Commit to releasing `h` exactly once.
    pub fn assume_ownership(h: RawHandle) -> (r: Self)
        ensures
            r.addr() == h,
    {
        JobFiltersOwned { v: JobFilters { h } }
    }

    /// Release the filter structure itself (attached step-filter lists
    /// are owned by the foreign library once handed over).  The handle is
    /// nulled, so a second call is a guaranteed no-op.
    pub fn destroy(&mut self, heap: &mut SlurmHeap)
        requires
            old(heap).wf(),
            old(self).addr() == 0 || old(heap).live(old(self).addr()),
        ensures
            final(heap).wf(),
            final(self).addr() == 0,
            freed_once(*old(heap), *final(heap), old(self).addr()),
    {
        crate::heap::slurm_free(heap, &mut self.v.h);
    }
}

/// A connection to the Slurm accounting database (borrowed view).
#[derive(Debug)]
pub struct DatabaseConnection {
    pub h: RawHandle,
}

impl DatabaseConnection {
    /// The raw handle this view wraps.
    pub open spec fn addr(self) -> RawHandle {
        self.h
    }

    /// The view designates a live connection.
    pub open spec fn valid(self, heap: SlurmHeap) -> bool {
        heap.live(self.h) && heap.payload_of(self.h) is Connection
    }
}

/// An owned version of `DatabaseConnection`.
#[derive(Debug)]
pub struct DatabaseConnectionOwned {
    pub v: DatabaseConnection,
}

impl DatabaseConnectionOwned {
    /// The raw handle this wrapper owns.
    pub open spec fn addr(self) -> RawHandle {
        self.v.h
    }

    /// Borrow the connection view.
    pub fn as_connection(&self) -> (r: &DatabaseConnection)
        ensures
            *r == self.v,
    {
        &self.v
    }

    /// Commit to releasing `h` exactly once.
    pub fn assume_ownership(h: RawHandle) -> (r: Self)
        ensures
            r.addr() == h,
    {
        DatabaseConnectionOwned { v: DatabaseConnection { h } }
    }

    /// Close the connection.  The foreign close call reports an errno
    /// directly as its return value (the exceptional error convention);
    /// at destruction time nothing can be done about a failure, so the
    /// mapped result is read and dropped, as the binding always has.
    pub fn destroy(&mut self, heap: &mut SlurmHeap)
        requires
            old(heap).wf(),
            old(self).addr() == 0 || old(heap).live(old(self).addr()),
        ensures
            final(heap).wf(),
            final(self).addr() == 0,
            freed_once(*old(heap), *final(heap), old(self).addr()),
    {
        let close_code: i32 = 0;
        let _ignored = crate::error::result_from_errno_code(close_code);
        crate::heap::slurm_free(heap, &mut self.v.h);
    }
}

} // verus!
