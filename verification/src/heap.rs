//! The foreign allocator model.
//!
//! The Slurm C library hands out and reclaims memory through its own
//! allocator, and every structure this crate exposes lives in that foreign
//! heap rather than on the Rust side.  This module models that heap as a
//! table of slots addressed by non-zero handles (a handle plays the role of
//! a raw address; handle `0` stands for the null pointer).  Allocation
//! appends a fresh slot and never reuses an address, so a handle that was
//! freed once can never spring back to life — which is exactly the
//! discipline the owned/borrowed wrapper types rely on.
//!
//! The allocator itself has no graceful out-of-memory path: the real
//! library aborts the process when its allocator is exhausted, and the
//! model inherits that policy by never reporting allocation failure.

use vstd::prelude::*;

verus! {

/// A raw address into foreign-allocated memory; `0` is the null handle.
pub type RawHandle = usize;

/// The reserved "no value" sentinel used by 32-bit Slurm fields.
pub const SLURM_NO_VAL: u32 = 0xfffffffe;

/// The reserved "no value" sentinel used by 64-bit Slurm fields.
pub const SLURM_NO_VAL64: u64 = 0xfffffffffffffffe;

/// Upper bound accepted for raw Unix timestamps held in foreign records,
/// chosen so that the difference of any two in-range timestamps fits in
/// `i64` without overflow.
pub const MAX_TIMESTAMP: i64 = 0x2000_0000_0000_0000;

/// Fields shared verbatim between job-level and step-level accounting
/// records (the foreign structures duplicate this subset).
#[derive(Clone, Copy)]
pub struct SharedAcctFields {
    /// Start time as Unix seconds; `0` means "not started".
    pub start: i64,
    /// End time as Unix seconds; `0` means "not ended".
    pub end: i64,
    /// Raw exit code; meaningful only once `end` is set.
    pub exitcode: i32,
    /// Peak virtual memory size in kibibytes; `SLURM_NO_VAL64` means unset.
    pub vsize_max: u64,
}

impl SharedAcctFields {
    /// Timestamps are within the range the model accepts.
    pub open spec fn wf(self) -> bool {
        0 <= self.start <= MAX_TIMESTAMP && 0 <= self.end <= MAX_TIMESTAMP
    }
}

/// Contents of a `job_info` record of the live-job subsystem.
#[derive(Clone, Copy)]
pub struct JobInfoData {
    pub job_id: u32,
    /// Handle of the partition-name string, or null.
    pub partition: RawHandle,
}

/// Contents of a `job_info_msg_t` message: a record count together with the
/// handle of the first (and, for single-job queries, only) record.
#[derive(Clone, Copy)]
pub struct JobInfoMsgData {
    pub record_count: u32,
    pub job_array: RawHandle,
}

/// Contents of a `slurmdb_job_cond_t` query filter.
#[derive(Clone, Copy)]
pub struct JobFiltersData {
    /// Handle of the list of step filters, or null when no filter is set.
    pub step_list: RawHandle,
    /// Nonzero to disable usage truncation in accounting queries.
    pub without_usage_truncation: u16,
}

/// Contents of a `slurmdb_selected_step_t` filter entry.
#[derive(Clone, Copy)]
pub struct JobStepFilterData {
    pub array_task_id: u32,
    pub jobid: u32,
    pub pack_job_offset: u32,
    pub stepid: u32,
}

/// Contents of a `slurmdb_job_rec_t` accounting record.
#[derive(Clone, Copy)]
pub struct JobRecordData {
    pub jobid: u32,
    /// Array master job id; `0` for jobs outside any array.
    pub array_job_id: u32,
    /// Raw job state code.
    pub state: u32,
    /// Handle of the job-name string, or null.
    pub jobname: RawHandle,
    /// Submission time as Unix seconds (always set for recorded jobs).
    pub submit: i64,
    /// Eligibility time as Unix seconds; `0` means "not yet eligible".
    pub eligible: i64,
    /// Handle of the list of step records, or null.
    pub steps: RawHandle,
    /// Time limit in minutes.
    pub timelimit: u32,
    pub shared: SharedAcctFields,
}

impl JobRecordData {
    pub open spec fn wf(self) -> bool {
        &&& 0 <= self.submit <= MAX_TIMESTAMP
        &&& 0 <= self.eligible <= MAX_TIMESTAMP
        &&& self.shared.wf()
    }
}

/// Contents of a `slurmdb_step_rec_t` accounting record.
#[derive(Clone, Copy)]
pub struct StepRecordData {
    pub stepid: u32,
    /// Handle of the step-name string, or null.
    pub stepname: RawHandle,
    pub shared: SharedAcctFields,
}

impl StepRecordData {
    pub open spec fn wf(self) -> bool {
        self.shared.wf()
    }
}

/// Contents of a `job_descriptor` structure for batch submission.
#[derive(Clone, Copy)]
pub struct JobDescriptorData {
    pub group_id: u32,
    pub user_id: u32,
    pub num_tasks: u32,
    /// Time limit in minutes.
    pub time_limit: u32,
    /// String handles; null when the field is unset.
    pub name: RawHandle,
    pub partition: RawHandle,
    pub script: RawHandle,
    pub std_err: RawHandle,
    pub std_in: RawHandle,
    pub std_out: RawHandle,
    pub work_dir: RawHandle,
    /// Handle of the argument string array, or null.
    pub argv: RawHandle,
    pub argc: u32,
    /// Handle of the environment string array, or null.
    pub environment: RawHandle,
    pub env_size: u32,
}

/// Contents of a `submit_response_msg` structure.
#[derive(Clone, Copy)]
pub struct SubmitResponseData {
    pub job_id: u32,
    pub step_id: u32,
    pub error_code: u32,
    /// Handle of the server's user message string, or null.
    pub job_submit_user_msg: RawHandle,
}

/// State of a foreign list-iterator cursor.
#[derive(Clone, Copy)]
pub struct ListIterData {
    /// Handle of the list being walked, or null for an absent list.
    pub list: RawHandle,
    /// Index of the next element to yield.
    pub pos: usize,
}

/// What one foreign allocation holds.
pub enum Payload {
    /// A NUL-terminated C string, modelled by its decoded text.
    Str(String),
    /// A contiguous array of string handles.
    StrArray(Vec<RawHandle>),
    /// An opaque foreign list: the handles of its elements, in order.
    List(Vec<RawHandle>),
    /// A list-iterator cursor.
    ListIter(ListIterData),
    /// An opaque accounting-database connection.
    Connection,
    JobInfo(JobInfoData),
    JobInfoMsg(JobInfoMsgData),
    JobFilters(JobFiltersData),
    JobStepFilter(JobStepFilterData),
    JobRecord(JobRecordData),
    StepRecord(StepRecordData),
    JobDescriptor(JobDescriptorData),
    SubmitResponse(SubmitResponseData),
}

/// Structural conditions every stored payload satisfies.
pub open spec fn payload_wf(p: Payload) -> bool {
    match p {
        Payload::JobRecord(d) => d.wf(),
        Payload::StepRecord(d) => d.wf(),
        _ => true,
    }
}

/// The foreign heap: a slot table addressed by non-zero handles.
///
/// Slot `i` backs handle `i + 1`; a freed slot keeps its place but holds
/// nothing, so addresses are never recycled.
pub struct SlurmHeap {
    slots: Vec<Option<Payload>>,
}

impl SlurmHeap {
    /// The heap invariant: every live payload is structurally sound.
    pub open spec fn wf(self) -> bool {
        forall|h: RawHandle| self.live(h) ==> payload_wf(#[trigger] self.payload_of(h))
    }

    /// Whether `h` addresses a live (allocated, not yet freed) slot.
    pub closed spec fn live(self, h: RawHandle) -> bool {
        1 <= h <= self.slots@.len() && self.slots@[h - 1] is Some
    }

    /// The highest handle ever issued; handles above it were never
    /// allocated, which is how freshness arguments are made.
    pub closed spec fn boundary(self) -> int {
        self.slots@.len() as int
    }

    /// The payload stored at `h`; meaningful only while `live(h)`.
    pub closed spec fn payload_of(self, h: RawHandle) -> Payload
        recommends
            self.live(h),
    {
        self.slots@[h as int - 1]->Some_0
    }

    /// A fresh, empty heap.
    pub fn new() -> (r: SlurmHeap)
        ensures
            r.wf(),
            forall|h: RawHandle| !r.live(h),
            r.boundary() == 0,
    {
        SlurmHeap { slots: Vec::new() }
    }

    /// Allocate a slot for `p` and return its fresh, non-null handle.
    pub fn allocate(&mut self, p: Payload) -> (h: RawHandle)
        requires
            old(self).wf(),
            payload_wf(p),
        ensures
            final(self).wf(),
            h != 0,
            !old(self).live(h),
            final(self).live(h),
            final(self).payload_of(h) == p,
            unchanged_except(*old(self), *final(self), h),
            extends(*old(self), *final(self)),
            h == final(self).boundary(),
            old(self).boundary() < h,
    {
        self.slots.push(Some(p));
        let h = self.slots.len();
        proof {
            assert forall|x: RawHandle| x != h implies
                (self.live(x) == old(self).live(x)
                && (old(self).live(x) ==> self.payload_of(x) == old(self).payload_of(x))) by {
                if 1 <= x <= old(self).slots@.len() {
                    assert(self.slots@[x - 1] == old(self).slots@[x - 1]);
                }
            }
        }
        h
    }

    /// Read the payload stored at `h`.
    pub fn read(&self, h: RawHandle) -> (p: &Payload)
        requires
            self.wf(),
            self.live(h),
        ensures
            *p == self.payload_of(h),
    {
        match &self.slots[h - 1] {
            Some(p) => p,
            None => vstd::pervasive::unreached(),
        }
    }

    /// Overwrite the payload stored at `h`.
    pub fn write(&mut self, h: RawHandle, p: Payload)
        requires
            old(self).wf(),
            old(self).live(h),
            payload_wf(p),
        ensures
            final(self).wf(),
            final(self).live(h),
            final(self).payload_of(h) == p,
            unchanged_except(*old(self), *final(self), h),
            final(self).boundary() == old(self).boundary(),
    {
        let slot = &mut self.slots[h - 1];
        *slot = Some(p);
        proof {
            assert forall|x: RawHandle| x != h implies
                (self.live(x) == old(self).live(x)
                && (old(self).live(x) ==> self.payload_of(x) == old(self).payload_of(x))) by {
                if 1 <= x <= self.slots@.len() {
                    assert(self.slots@[x - 1] == old(self).slots@[x - 1]);
                }
            }
        }
    }

    /// Reclaim the slot at `h`; its address is never reused.
    pub fn free_slot(&mut self, h: RawHandle)
        requires
            old(self).wf(),
            old(self).live(h),
        ensures
            final(self).wf(),
            !final(self).live(h),
            unchanged_except(*old(self), *final(self), h),
            final(self).boundary() == old(self).boundary(),
    {
        let slot = &mut self.slots[h - 1];
        *slot = None;
        proof {
            assert forall|x: RawHandle| x != h implies
                (self.live(x) == old(self).live(x)
                && (old(self).live(x) ==> self.payload_of(x) == old(self).payload_of(x))) by {
                if 1 <= x <= self.slots@.len() {
                    assert(self.slots@[x - 1] == old(self).slots@[x - 1]);
                }
            }
        }
    }

    /// Executable query mirroring the `live` spec.
    pub fn is_live(&self, h: RawHandle) -> (r: bool)
        ensures
            r == self.live(h),
    {
        if h >= 1 && h <= self.slots.len() {
            self.slots[h - 1].is_some()
        } else {
            false
        }
    }

    /// `h` is live and holds a string payload.
    pub open spec fn is_str(self, h: RawHandle) -> bool {
        self.live(h) && self.payload_of(h) is Str
    }

    /// The text of the string stored at `h`.
    pub open spec fn str_at(self, h: RawHandle) -> Seq<char>
        recommends
            self.is_str(h),
    {
        self.payload_of(h)->Str_0@
    }
}

/// Nothing lives at the null handle.
pub proof fn lemma_live_nonzero(heap: SlurmHeap, h: RawHandle)
    requires
        heap.live(h),
    ensures
        h != 0,
{
}

/// A live handle never exceeds the allocation boundary.
pub proof fn lemma_live_below_boundary(heap: SlurmHeap, x: RawHandle)
    requires
        heap.live(x),
    ensures
        x <= heap.boundary(),
{
}

/// Everything but `h` is untouched between `pre` and `post`: liveness is
/// unchanged, and live payloads keep their value.
pub open spec fn unchanged_except(pre: SlurmHeap, post: SlurmHeap, h: RawHandle) -> bool {
    &&& forall|x: RawHandle| #![trigger post.live(x)] #![trigger pre.live(x)]
        x != h ==> post.live(x) == pre.live(x)
    &&& forall|x: RawHandle| #![trigger post.payload_of(x)] #![trigger pre.payload_of(x)]
        x != h && pre.live(x) ==> post.payload_of(x) == pre.payload_of(x)
}

/// `post` keeps every live allocation of `pre` intact (it may add more).
pub open spec fn extends(pre: SlurmHeap, post: SlurmHeap) -> bool {
    forall|x: RawHandle| #![trigger post.live(x)] #![trigger pre.live(x)]
        pre.live(x) ==> post.live(x) && post.payload_of(x) == pre.payload_of(x)
}

/// Like `extends`, but the allocation at `h` may have changed or died:
/// everything else that was live stays live with its payload.
pub open spec fn extends_except(pre: SlurmHeap, post: SlurmHeap, h: RawHandle) -> bool {
    forall|x: RawHandle| #![trigger post.live(x)] #![trigger pre.live(x)]
        x != h && pre.live(x) ==> post.live(x) && post.payload_of(x) == pre.payload_of(x)
}

/// `extends` composes across successive allocations.
pub proof fn lemma_extends_trans(a: SlurmHeap, b: SlurmHeap, c: SlurmHeap)
    requires
        extends(a, b),
        extends(b, c),
    ensures
        extends(a, c),
{
    assert forall|x: RawHandle| a.live(x) implies #[trigger] c.live(x) && c.payload_of(x)
        == a.payload_of(x) by {
        assert(b.live(x) && b.payload_of(x) == a.payload_of(x));
        assert(c.live(x) && c.payload_of(x) == b.payload_of(x));
    }
}

/// Allocate one zeroed structure with the foreign allocator, aborting on
/// exhaustion as the foreign library itself would; the caller supplies the
/// zeroed image of the structure being placed.
pub fn slurm_alloc(heap: &mut SlurmHeap, p: Payload) -> (h: RawHandle)
    requires
        old(heap).wf(),
        payload_wf(p),
    ensures
        final(heap).wf(),
        h != 0,
        !old(heap).live(h),
        final(heap).live(h),
        final(heap).payload_of(h) == p,
        unchanged_except(*old(heap), *final(heap), h),
        extends(*old(heap), *final(heap)),
        h == final(heap).boundary(),
        old(heap).boundary() < h,
{
    heap.allocate(p)
}

/// Allocate a zeroed array of `count` handles (the backing store used for
/// string arrays); every entry starts out null.
pub fn slurm_alloc_array(heap: &mut SlurmHeap, count: usize) -> (h: RawHandle)
    requires
        old(heap).wf(),
    ensures
        final(heap).wf(),
        h != 0,
        !old(heap).live(h),
        final(heap).live(h),
        final(heap).payload_of(h) matches Payload::StrArray(a)
            && a@.len() == count
            && forall|i: int| 0 <= i < count ==> a@[i] == 0usize,
        unchanged_except(*old(heap), *final(heap), h),
        extends(*old(heap), *final(heap)),
{
    let mut entries: Vec<RawHandle> = Vec::new();
    let mut i: usize = 0;
    while i < count
        invariant
            i <= count,
            entries@.len() == i,
            forall|k: int| 0 <= k < i ==> entries@[k] == 0usize,
        decreases count - i,
    {
        entries.push(0);
        i = i + 1;
    }
    heap.allocate(Payload::StrArray(entries))
}

/// Copy `text` into a freshly allocated, NUL-terminated foreign string.
pub fn slurm_alloc_utf8_string(heap: &mut SlurmHeap, text: &str) -> (h: RawHandle)
    requires
        old(heap).wf(),
    ensures
        final(heap).wf(),
        h != 0,
        !old(heap).live(h),
        final(heap).is_str(h),
        final(heap).str_at(h) == text@,
        unchanged_except(*old(heap), *final(heap), h),
        extends(*old(heap), *final(heap)),
        h == final(heap).boundary(),
        old(heap).boundary() < h,
{
    heap.allocate(Payload::Str(text.to_owned()))
}

/// Duplicate a vector of raw handles (handles are plain addresses, so the
/// copy holds exactly the same entries).
pub fn clone_handles(v: &Vec<RawHandle>) -> (r: Vec<RawHandle>)
    ensures
        r@ == v@,
{
    let r = v.clone();
    proof {
        assert forall|i: int| 0 <= i < v@.len() implies r@[i] == v@[i] by {
            assert(cloned::<RawHandle>(v@[i], r@[i]));
        }
        assert(r@ =~= v@);
    }
    r
}

/// Encode each of `strings` into its own foreign C string, then allocate a
/// contiguous array of the resulting handles.  Returns the array handle and
/// the number of strings placed.
pub fn slurm_alloc_utf8_string_array(heap: &mut SlurmHeap, strings: &Vec<String>) -> (r: (
    RawHandle,
    usize,
))
    requires
        old(heap).wf(),
    ensures
        final(heap).wf(),
        extends(*old(heap), *final(heap)),
        r.1 == strings@.len(),
        r.0 != 0,
        !old(heap).live(r.0),
        string_array_at(*final(heap), r.0, r.1, strings@.map_values(|s: String| s@)),
        old(heap).boundary() < r.0,
        r.0 == final(heap).boundary(),
        forall|x: RawHandle| x <= old(heap).boundary()
            ==> #[trigger] final(heap).live(x) == old(heap).live(x),
{
    let mut entries: Vec<RawHandle> = Vec::new();
    let mut i: usize = 0;
    while i < strings.len()
        invariant
            heap.wf(),
            extends(*old(heap), *heap),
            i <= strings@.len(),
            entries@.len() == i,
            forall|k: int| 0 <= k < i ==> {
                &&& #[trigger] entries@[k] != 0
                &&& !old(heap).live(entries@[k])
                &&& heap.is_str(entries@[k])
                &&& heap.str_at(entries@[k]) == strings@[k]@
            },
            forall|k: int, m: int| 0 <= k < m < i ==> entries@[k] != entries@[m],
            old(heap).boundary() <= heap.boundary(),
            forall|x: RawHandle| x <= old(heap).boundary()
                ==> #[trigger] heap.live(x) == old(heap).live(x),
        decreases strings@.len() - i,
    {
        let ghost pre = *heap;
        let h = slurm_alloc_utf8_string(heap, strings[i].as_str());
        entries.push(h);
        proof {
            lemma_extends_trans(*old(heap), pre, *heap);
            assert forall|k: int| 0 <= k < i + 1 implies {
                &&& #[trigger] entries@[k] != 0
                &&& !old(heap).live(entries@[k])
                &&& heap.is_str(entries@[k])
                &&& heap.str_at(entries@[k]) == strings@[k]@
            } by {
                if k < i {
                    assert(pre.live(entries@[k]));
                }
            }
        }
        i = i + 1;
    }
    let count = entries.len();
    let ghost entry_seq = entries@;
    let ghost pre = *heap;
    let arr = heap.allocate(Payload::StrArray(entries));
    proof {
        lemma_extends_trans(*old(heap), pre, *heap);
        assert forall|k: int| 0 <= k < count implies {
            &&& #[trigger] entry_seq[k] != 0
            &&& heap.is_str(entry_seq[k])
            &&& heap.str_at(entry_seq[k]) == strings@.map_values(|s: String| s@)[k]
            &&& entry_seq[k] != arr
        } by {
            assert(pre.live(entry_seq[k]));
        }
    }
    (arr, count)
}

/// The allocation at `arr` is a string array of `count` handles whose texts
/// are `texts`, with every entry non-null and no entry aliased.
pub open spec fn string_array_at(
    heap: SlurmHeap,
    arr: RawHandle,
    count: usize,
    texts: Seq<Seq<char>>,
) -> bool {
    &&& heap.live(arr)
    &&& heap.payload_of(arr) matches Payload::StrArray(a) && {
        &&& a@.len() == count
        &&& texts.len() == count
        &&& forall|i: int| 0 <= i < count ==> {
            &&& #[trigger] a@[i] != 0
            &&& a@[i] != arr
            &&& heap.is_str(a@[i])
            &&& heap.str_at(a@[i]) == texts[i]
        }
        &&& forall|i: int, j: int| 0 <= i < j < count ==> a@[i] != a@[j]
    }
}

/// Release a C-string allocation, if the handle still points at one, and
/// null the handle.  The guard makes explicit that a release touches only
/// a string the caller still owns: after a transfer or an earlier release
/// the handle finds no string and the call changes nothing.
pub fn slurm_free_str_checked(heap: &mut SlurmHeap, handle: &mut RawHandle)
    requires
        old(heap).wf(),
    ensures
        final(heap).wf(),
        *final(handle) == 0,
        old(heap).is_str(*old(handle)) ==> freed_once(*old(heap), *final(heap), *old(handle)),
        !old(heap).is_str(*old(handle)) ==> *final(heap) == *old(heap),
        !final(heap).is_str(*old(handle)),
        final(heap).boundary() == old(heap).boundary(),
        forall|x: RawHandle| #[trigger] final(heap).live(x) ==> old(heap).live(x)
            && final(heap).payload_of(x) == old(heap).payload_of(x),
{
    if *handle != 0 && heap.is_live(*handle) {
        let found = match heap.read(*handle) {
            Payload::Str(_) => true,
            _ => false,
        };
        if found {
            heap.free_slot(*handle);
        }
    }
    *handle = 0;
}

/// Free every string of a string array, then the array itself, and null
/// the caller's handle; a no-op when the handle is already null.  Each
/// entry is released through the string release guard, so an entry whose
/// string was already surrendered is skipped.
pub fn slurm_free_string_array(heap: &mut SlurmHeap, handle: &mut RawHandle, count: usize)
    requires
        old(heap).wf(),
        *old(handle) == 0 || (old(heap).live(*old(handle)) && (old(heap).payload_of(
            *old(handle),
        ) matches Payload::StrArray(a) && a@.len() == count)),
    ensures
        final(heap).wf(),
        *final(handle) == 0,
        *old(handle) == 0 ==> *final(heap) == *old(heap),
        *old(handle) != 0 ==> !final(heap).live(*old(handle)),
        forall|x: RawHandle|
            arr_entries(*old(heap), *old(handle)).contains(x) && old(heap).is_str(x)
                ==> !final(heap).live(x),
        forall|x: RawHandle|
            string_array_untouched(*old(heap), *old(handle), x) && old(heap).live(x)
                ==> #[trigger] final(heap).live(x) && final(heap).payload_of(x)
                == old(heap).payload_of(x),
        forall|x: RawHandle| #[trigger] final(heap).live(x) ==> old(heap).live(x)
            && final(heap).payload_of(x) == old(heap).payload_of(x),
        final(heap).boundary() == old(heap).boundary(),
{
    if *handle == 0 {
        return ;
    }
    let arr = *handle;
    let entries = match heap.read(arr) {
        Payload::StrArray(a) => clone_handles(a),
        _ => vstd::pervasive::unreached(),
    };
    let ghost entry_seq = entries@;
    let mut i: usize = 0;
    while i < entries.len()
        invariant
            heap.wf(),
            entries@ == entry_seq,
            i <= entry_seq.len(),
            old(heap).payload_of(arr) matches Payload::StrArray(a) && a@ == entry_seq,
            old(heap).live(arr),
            arr != 0,
            forall|k: int| 0 <= k < i && old(heap).is_str(#[trigger] entry_seq[k])
                ==> !heap.live(entry_seq[k]),
            forall|x: RawHandle| #[trigger] heap.live(x) ==> old(heap).live(x)
                && heap.payload_of(x) == old(heap).payload_of(x),
            heap.live(arr),
            heap.payload_of(arr) == old(heap).payload_of(arr),
            heap.boundary() == old(heap).boundary(),
            forall|x: RawHandle|
                string_array_untouched(*old(heap), arr, x) && old(heap).live(x)
                    ==> #[trigger] heap.live(x) && heap.payload_of(x)
                    == old(heap).payload_of(x),
        decreases entry_seq.len() - i,
    {
        proof {
            assert(entry_seq.contains(entry_seq[i as int]));
        }
        let mut sub = entries[i];
        slurm_free_str_checked(heap, &mut sub);
        i = i + 1;
    }
    heap.free_slot(arr);
    *handle = 0;
}

/// The entries of the string array at `h`, or nothing when `h` does not
/// designate a live string array.
pub open spec fn arr_entries(heap: SlurmHeap, h: RawHandle) -> Seq<RawHandle> {
    if h != 0 && heap.live(h) && heap.payload_of(h) is StrArray {
        heap.payload_of(h)->StrArray_0@
    } else {
        Seq::empty()
    }
}

/// Handles that freeing the string array at `arr` does not touch: anything
/// other than the array itself and the strings its entries point at.
pub open spec fn string_array_untouched(pre: SlurmHeap, arr: RawHandle, x: RawHandle) -> bool {
    &&& x != arr
    &&& !(arr_entries(pre, arr).contains(x) && pre.is_str(x))
}

/// Free one foreign allocation and null the caller's handle; a no-op when
/// the handle is already null.
pub fn slurm_free(heap: &mut SlurmHeap, handle: &mut RawHandle)
    requires
        old(heap).wf(),
        *old(handle) == 0 || old(heap).live(*old(handle)),
    ensures
        final(heap).wf(),
        *final(handle) == 0,
        freed_once(*old(heap), *final(heap), *old(handle)),
        final(heap).boundary() == old(heap).boundary(),
        forall|x: RawHandle| #[trigger] final(heap).live(x) ==> old(heap).live(x)
            && final(heap).payload_of(x) == old(heap).payload_of(x),
{
    if *handle != 0 {
        heap.free_slot(*handle);
        *handle = 0;
    }
}

/// Relation left behind by releasing the allocation at `h`: with a null
/// handle nothing happens at all; otherwise exactly that slot dies.
pub open spec fn freed_once(pre: SlurmHeap, post: SlurmHeap, h: RawHandle) -> bool {
    if h == 0 {
        post == pre
    } else {
        !post.live(h) && unchanged_except(pre, post, h)
    }
}

/// Releasing with an already-nulled handle leaves the heap exactly as it
/// was: destruction after a transfer of ownership (which nulls the handle)
/// is a guaranteed no-op, so no allocation can be freed twice through the
/// same wrapper.
pub proof fn lemma_destroy_idempotent(pre: SlurmHeap, mid: SlurmHeap, post: SlurmHeap, h: RawHandle)
    requires
        freed_once(pre, mid, h),
        freed_once(mid, post, 0),
    ensures
        post == mid,
        h != 0 ==> !post.live(h),
{
}

} // verus!
