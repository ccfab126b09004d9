//! Batch-job submission entities: the job descriptor and the submission
//! response message.
//!
//! A job descriptor owns a tree of foreign allocations: the structure
//! itself, one C string per text field, and one string array each for the
//! argument list and the environment.  Setters release the allocation
//! they replace before installing the fresh one, and destruction releases
//! every owned sub-allocation before the structure itself — mirroring the
//! deallocation order the foreign library expects.

use vstd::prelude::*;
use crate::heap::{
    arr_entries, extends, unchanged_except, JobDescriptorData, Payload, RawHandle, SlurmHeap,
    SubmitResponseData, string_array_at,
};
use crate::{JobId, StepId};

verus! {

/// A description of a batch job to submit (borrowed view).
#[derive(Debug)]
pub struct JobDescriptor {
    pub h: RawHandle,
}

impl JobDescriptor {
    /// The raw handle this view wraps.
    pub open spec fn addr(self) -> RawHandle {
        self.h
    }

    /// The view designates a live job descriptor.
    pub open spec fn valid(self, heap: SlurmHeap) -> bool {
        heap.live(self.h) && heap.payload_of(self.h) is JobDescriptor
    }

    /// The stored descriptor fields.
    pub open spec fn data(self, heap: SlurmHeap) -> JobDescriptorData {
        heap.payload_of(self.h)->JobDescriptor_0
    }

    /// Get the group ID associated with this job.
    pub fn gid(&self, heap: &SlurmHeap) -> (r: u32)
        requires
            heap.wf(),
            self.valid(*heap),
        ensures
            r == self.data(*heap).group_id,
    {
        match heap.read(self.h) {
            Payload::JobDescriptor(d) => d.group_id,
            _ => vstd::pervasive::unreached(),
        }
    }

    /// Set the group ID associated with this job.
    pub fn set_gid(&self, heap: &mut SlurmHeap, value: u32)
        requires
            old(heap).wf(),
            self.valid(*old(heap)),
        ensures
            final(heap).wf(),
            self.valid(*final(heap)),
            self.data(*final(heap)) == (JobDescriptorData {
                group_id: value,
                ..self.data(*old(heap))
            }),
            unchanged_except(*old(heap), *final(heap), self.h),
    {
        let d: JobDescriptorData = match heap.read(self.h) {
            Payload::JobDescriptor(d) => *d,
            _ => vstd::pervasive::unreached(),
        };
        heap.write(self.h, Payload::JobDescriptor(JobDescriptorData { group_id: value, ..d }));
    }

    /// Get the number of tasks within this job.
    pub fn num_tasks(&self, heap: &SlurmHeap) -> (r: u32)
        requires
            heap.wf(),
            self.valid(*heap),
        ensures
            r == self.data(*heap).num_tasks,
    {
        match heap.read(self.h) {
            Payload::JobDescriptor(d) => d.num_tasks,
            _ => vstd::pervasive::unreached(),
        }
    }

    /// Set the number of tasks within this job.
    pub fn set_num_tasks(&self, heap: &mut SlurmHeap, value: u32)
        requires
            old(heap).wf(),
            self.valid(*old(heap)),
        ensures
            final(heap).wf(),
            self.valid(*final(heap)),
            self.data(*final(heap)) == (JobDescriptorData {
                num_tasks: value,
                ..self.data(*old(heap))
            }),
            unchanged_except(*old(heap), *final(heap), self.h),
    {
        let d: JobDescriptorData = match heap.read(self.h) {
            Payload::JobDescriptor(d) => *d,
            _ => vstd::pervasive::unreached(),
        };
        heap.write(self.h, Payload::JobDescriptor(JobDescriptorData { num_tasks: value, ..d }));
    }

    /// Get the time limit associated with this job, measured in minutes.
    pub fn time_limit(&self, heap: &SlurmHeap) -> (r: u32)
        requires
            heap.wf(),
            self.valid(*heap),
        ensures
            r == self.data(*heap).time_limit,
    {
        match heap.read(self.h) {
            Payload::JobDescriptor(d) => d.time_limit,
            _ => vstd::pervasive::unreached(),
        }
    }

    /// Set the time limit associated with this job, in minutes.
    pub fn set_time_limit(&self, heap: &mut SlurmHeap, minutes: u32)
        requires
            old(heap).wf(),
            self.valid(*old(heap)),
        ensures
            final(heap).wf(),
            self.valid(*final(heap)),
            self.data(*final(heap)) == (JobDescriptorData {
                time_limit: minutes,
                ..self.data(*old(heap))
            }),
            unchanged_except(*old(heap), *final(heap), self.h),
    {
        let d: JobDescriptorData = match heap.read(self.h) {
            Payload::JobDescriptor(d) => *d,
            _ => vstd::pervasive::unreached(),
        };
        heap.write(self.h, Payload::JobDescriptor(JobDescriptorData { time_limit: minutes, ..d }));
    }

    /// Get the user ID associated with this job.
    pub fn uid(&self, heap: &SlurmHeap) -> (r: u32)
        requires
            heap.wf(),
            self.valid(*heap),
        ensures
            r == self.data(*heap).user_id,
    {
        match heap.read(self.h) {
            Payload::JobDescriptor(d) => d.user_id,
            _ => vstd::pervasive::unreached(),
        }
    }

    /// Set the user ID associated with this job.
    pub fn set_uid(&self, heap: &mut SlurmHeap, value: u32)
        requires
            old(heap).wf(),
            self.valid(*old(heap)),
        ensures
            final(heap).wf(),
            self.valid(*final(heap)),
            self.data(*final(heap)) == (JobDescriptorData {
                user_id: value,
                ..self.data(*old(heap))
            }),
            unchanged_except(*old(heap), *final(heap), self.h),
    {
        let d: JobDescriptorData = match heap.read(self.h) {
            Payload::JobDescriptor(d) => *d,
            _ => vstd::pervasive::unreached(),
        };
        heap.write(self.h, Payload::JobDescriptor(JobDescriptorData { user_id: value, ..d }));
    }

    /// Get this job's name.
    pub fn name(&self, heap: &SlurmHeap) -> (r: String)
        requires
            heap.wf(),
            self.valid(*heap),
            heap.is_str(self.data(*heap).name),
        ensures
            r@ == heap.str_at(self.data(*heap).name),
    {
        read_str_field(heap, self.h, FIELD_NAME)
    }

    /// Get this job's assigned partition.
    pub fn partition(&self, heap: &SlurmHeap) -> (r: String)
        requires
            heap.wf(),
            self.valid(*heap),
            heap.is_str(self.data(*heap).partition),
        ensures
            r@ == heap.str_at(self.data(*heap).partition),
    {
        read_str_field(heap, self.h, FIELD_PARTITION)
    }

    /// Get the contents of this job's batch wrapper script.
    pub fn script(&self, heap: &SlurmHeap) -> (r: String)
        requires
            heap.wf(),
            self.valid(*heap),
            heap.is_str(self.data(*heap).script),
        ensures
            r@ == heap.str_at(self.data(*heap).script),
    {
        read_str_field(heap, self.h, FIELD_SCRIPT)
    }

    /// Get the path for this job's standard error stream.
    pub fn stderr_path(&self, heap: &SlurmHeap) -> (r: String)
        requires
            heap.wf(),
            self.valid(*heap),
            heap.is_str(self.data(*heap).std_err),
        ensures
            r@ == heap.str_at(self.data(*heap).std_err),
    {
        read_str_field(heap, self.h, FIELD_STD_ERR)
    }

    /// Get the path for this job's standard input stream.
    pub fn stdin_path(&self, heap: &SlurmHeap) -> (r: String)
        requires
            heap.wf(),
            self.valid(*heap),
            heap.is_str(self.data(*heap).std_in),
        ensures
            r@ == heap.str_at(self.data(*heap).std_in),
    {
        read_str_field(heap, self.h, FIELD_STD_IN)
    }

    /// Get the path for this job's standard output stream.
    pub fn stdout_path(&self, heap: &SlurmHeap) -> (r: String)
        requires
            heap.wf(),
            self.valid(*heap),
            heap.is_str(self.data(*heap).std_out),
        ensures
            r@ == heap.str_at(self.data(*heap).std_out),
    {
        read_str_field(heap, self.h, FIELD_STD_OUT)
    }

    /// Get this job's assigned working directory.
    pub fn work_dir(&self, heap: &SlurmHeap) -> (r: String)
        requires
            heap.wf(),
            self.valid(*heap),
            heap.is_str(self.data(*heap).work_dir),
        ensures
            r@ == heap.str_at(self.data(*heap).work_dir),
    {
        read_str_field(heap, self.h, FIELD_WORK_DIR)
    }
}

/// Stable indices naming the descriptor's string fields.
pub const FIELD_NAME: u32 = 0;

pub const FIELD_PARTITION: u32 = 1;

pub const FIELD_SCRIPT: u32 = 2;

pub const FIELD_STD_ERR: u32 = 3;

pub const FIELD_STD_IN: u32 = 4;

pub const FIELD_STD_OUT: u32 = 5;

pub const FIELD_WORK_DIR: u32 = 6;

/// The string handle a field index selects.
pub open spec fn spec_str_field(d: JobDescriptorData, field: u32) -> RawHandle {
    if field == FIELD_NAME {
        d.name
    } else if field == FIELD_PARTITION {
        d.partition
    } else if field == FIELD_SCRIPT {
        d.script
    } else if field == FIELD_STD_ERR {
        d.std_err
    } else if field == FIELD_STD_IN {
        d.std_in
    } else if field == FIELD_STD_OUT {
        d.std_out
    } else {
        d.work_dir
    }
}

/// The descriptor with the selected string field replaced.
pub open spec fn spec_with_str_field(d: JobDescriptorData, field: u32, h: RawHandle) -> JobDescriptorData {
    if field == FIELD_NAME {
        JobDescriptorData { name: h, ..d }
    } else if field == FIELD_PARTITION {
        JobDescriptorData { partition: h, ..d }
    } else if field == FIELD_SCRIPT {
        JobDescriptorData { script: h, ..d }
    } else if field == FIELD_STD_ERR {
        JobDescriptorData { std_err: h, ..d }
    } else if field == FIELD_STD_IN {
        JobDescriptorData { std_in: h, ..d }
    } else if field == FIELD_STD_OUT {
        JobDescriptorData { std_out: h, ..d }
    } else {
        JobDescriptorData { work_dir: h, ..d }
    }
}

/// Read the text of one of the descriptor's string fields.
fn read_str_field(heap: &SlurmHeap, dh: RawHandle, field: u32) -> (r: String)
    requires
        heap.wf(),
        field <= FIELD_WORK_DIR,
        heap.live(dh),
        heap.payload_of(dh) is JobDescriptor,
        heap.is_str(spec_str_field(heap.payload_of(dh)->JobDescriptor_0, field)),
    ensures
        r@ == heap.str_at(spec_str_field(heap.payload_of(dh)->JobDescriptor_0, field)),
{
    let d: JobDescriptorData = match heap.read(dh) {
        Payload::JobDescriptor(d) => *d,
        _ => vstd::pervasive::unreached(),
    };
    let sh: RawHandle = if field == FIELD_NAME {
        d.name
    } else if field == FIELD_PARTITION {
        d.partition
    } else if field == FIELD_SCRIPT {
        d.script
    } else if field == FIELD_STD_ERR {
        d.std_err
    } else if field == FIELD_STD_IN {
        d.std_in
    } else if field == FIELD_STD_OUT {
        d.std_out
    } else {
        d.work_dir
    };
    match heap.read(sh) {
        Payload::Str(s) => s.clone(),
        _ => vstd::pervasive::unreached(),
    }
}

/// An owned version of `JobDescriptor`.
#[derive(Debug)]
pub struct JobDescriptorOwned {
    pub v: JobDescriptor,
}

impl JobDescriptorOwned {
    /// The raw handle this wrapper owns.
    pub open spec fn addr(self) -> RawHandle {
        self.v.h
    }

    /// Borrow the descriptor view.
    pub fn as_descriptor(&self) -> (r: &JobDescriptor)
        ensures
            *r == self.v,
    {
        &self.v
    }

    /// Create a new, defaulted job descriptor: a zeroed allocation,
    /// initialized the way the foreign descriptor-initializer leaves it.
    pub fn new(heap: &mut SlurmHeap) -> (r: Self)
        requires
            old(heap).wf(),
        ensures
            final(heap).wf(),
            extends(*old(heap), *final(heap)),
            unchanged_except(*old(heap), *final(heap), r.addr()),
            !old(heap).live(r.addr()),
            r.v.valid(*final(heap)),
            r.v.data(*final(heap)) == zeroed_descriptor(),
    {
        let h = crate::heap::slurm_alloc(heap, Payload::JobDescriptor(JobDescriptorData {
            group_id: 0,
            user_id: 0,
            num_tasks: 0,
            time_limit: 0,
            name: 0,
            partition: 0,
            script: 0,
            std_err: 0,
            std_in: 0,
            std_out: 0,
            work_dir: 0,
            argv: 0,
            argc: 0,
            environment: 0,
            env_size: 0,
        }));
        JobDescriptorOwned { v: JobDescriptor { h } }
    }

    /// Replace one of the descriptor's string fields: the allocation the
    /// field held is released and a fresh foreign string takes its place.
    pub fn set_str_field(&self, heap: &mut SlurmHeap, field: u32, text: &str)
        requires
            old(heap).wf(),
            field <= FIELD_WORK_DIR,
            self.v.valid(*old(heap)),
        ensures
            final(heap).wf(),
            self.v.valid(*final(heap)),
            ({
                let d0 = self.v.data(*old(heap));
                let d1 = self.v.data(*final(heap));
                let fresh = spec_str_field(d1, field);
                &&& d1 == spec_with_str_field(d0, field, fresh)
                &&& final(heap).is_str(fresh)
                &&& final(heap).str_at(fresh) == text@
                &&& !old(heap).live(fresh)
                &&& old(heap).is_str(spec_str_field(d0, field)) ==> !final(heap).live(
                    spec_str_field(d0, field),
                )
                &&& forall|x: RawHandle|
                    x != self.v.h && x != spec_str_field(d0, field) && x != fresh && old(
                        heap,
                    ).live(x) ==> #[trigger] final(heap).live(x) && final(heap).payload_of(x)
                        == old(heap).payload_of(x)
            }),
    {
        let d: JobDescriptorData = match heap.read(self.v.h) {
            Payload::JobDescriptor(d) => *d,
            _ => vstd::pervasive::unreached(),
        };
        let mut old_field: RawHandle = if field == FIELD_NAME {
            d.name
        } else if field == FIELD_PARTITION {
            d.partition
        } else if field == FIELD_SCRIPT {
            d.script
        } else if field == FIELD_STD_ERR {
            d.std_err
        } else if field == FIELD_STD_IN {
            d.std_in
        } else if field == FIELD_STD_OUT {
            d.std_out
        } else {
            d.work_dir
        };
        let ghost pre = *old(heap);
        let ghost old_field0 = old_field;
        crate::heap::slurm_free_str_checked(heap, &mut old_field);
        let ghost h1 = *heap;
        let nh = crate::heap::slurm_alloc_utf8_string(heap, text);
        let ghost h2 = *heap;
        let nd: JobDescriptorData = if field == FIELD_NAME {
            JobDescriptorData { name: nh, ..d }
        } else if field == FIELD_PARTITION {
            JobDescriptorData { partition: nh, ..d }
        } else if field == FIELD_SCRIPT {
            JobDescriptorData { script: nh, ..d }
        } else if field == FIELD_STD_ERR {
            JobDescriptorData { std_err: nh, ..d }
        } else if field == FIELD_STD_IN {
            JobDescriptorData { std_in: nh, ..d }
        } else if field == FIELD_STD_OUT {
            JobDescriptorData { std_out: nh, ..d }
        } else {
            JobDescriptorData { work_dir: nh, ..d }
        };
        heap.write(self.v.h, Payload::JobDescriptor(nd));
        proof {
            if pre.live(nh) {
                crate::heap::lemma_live_below_boundary(pre, nh);
            }
            assert forall|x: RawHandle|
                x != self.v.h && x != old_field0 && x != nh && pre.live(x) implies
                #[trigger] heap.live(x) && heap.payload_of(x) == pre.payload_of(x) by {
                assert(h1.live(x) && h1.payload_of(x) == pre.payload_of(x));
                assert(h2.live(x) && h2.payload_of(x) == h1.payload_of(x));
            }
        }
    }

    /// Set this job's name.
    pub fn set_name(&self, heap: &mut SlurmHeap, name: &str)
        requires
            old(heap).wf(),
            self.v.valid(*old(heap)),
        ensures
            final(heap).wf(),
            self.v.valid(*final(heap)),
            str_field_replaced(*old(heap), *final(heap), self.v, FIELD_NAME, name@),
    {
        self.set_str_field(heap, FIELD_NAME, name);
    }

    /// Set this job's partition.
    pub fn set_partition(&self, heap: &mut SlurmHeap, partition: &str)
        requires
            old(heap).wf(),
            self.v.valid(*old(heap)),
        ensures
            final(heap).wf(),
            self.v.valid(*final(heap)),
            str_field_replaced(*old(heap), *final(heap), self.v, FIELD_PARTITION, partition@),
    {
        self.set_str_field(heap, FIELD_PARTITION, partition);
    }

    /// Set the contents of this job's wrapper shell script.  The text is
    /// executed as the batch wrapper and should start with a shebang line.
    pub fn set_script(&self, heap: &mut SlurmHeap, script: &str)
        requires
            old(heap).wf(),
            self.v.valid(*old(heap)),
        ensures
            final(heap).wf(),
            self.v.valid(*final(heap)),
            str_field_replaced(*old(heap), *final(heap), self.v, FIELD_SCRIPT, script@),
    {
        self.set_str_field(heap, FIELD_SCRIPT, script);
    }

    /// Set the path that will be used as this job's standard error stream.
    pub fn set_stderr_path(&self, heap: &mut SlurmHeap, path: &str)
        requires
            old(heap).wf(),
            self.v.valid(*old(heap)),
        ensures
            final(heap).wf(),
            self.v.valid(*final(heap)),
            str_field_replaced(*old(heap), *final(heap), self.v, FIELD_STD_ERR, path@),
    {
        self.set_str_field(heap, FIELD_STD_ERR, path);
    }

    /// Set the path that will be used as this job's standard input stream.
    pub fn set_stdin_path(&self, heap: &mut SlurmHeap, path: &str)
        requires
            old(heap).wf(),
            self.v.valid(*old(heap)),
        ensures
            final(heap).wf(),
            self.v.valid(*final(heap)),
            str_field_replaced(*old(heap), *final(heap), self.v, FIELD_STD_IN, path@),
    {
        self.set_str_field(heap, FIELD_STD_IN, path);
    }

    /// Set the path that will be used as this job's standard output stream.
    pub fn set_stdout_path(&self, heap: &mut SlurmHeap, path: &str)
        requires
            old(heap).wf(),
            self.v.valid(*old(heap)),
        ensures
            final(heap).wf(),
            self.v.valid(*final(heap)),
            str_field_replaced(*old(heap), *final(heap), self.v, FIELD_STD_OUT, path@),
    {
        self.set_str_field(heap, FIELD_STD_OUT, path);
    }

    /// Set this job's working directory; it should exist on all worker
    /// nodes of the cluster.
    pub fn set_work_dir(&self, heap: &mut SlurmHeap, work_dir: &str)
        requires
            old(heap).wf(),
            self.v.valid(*old(heap)),
        ensures
            final(heap).wf(),
            self.v.valid(*final(heap)),
            str_field_replaced(*old(heap), *final(heap), self.v, FIELD_WORK_DIR, work_dir@),
    {
        self.set_str_field(heap, FIELD_WORK_DIR, work_dir);
    }

    /// Release the argument array, if any, and zero the argument count.
    pub fn maybe_clear_argv(&self, heap: &mut SlurmHeap)
        requires
            old(heap).wf(),
            self.v.valid(*old(heap)),
            arr_field_ok(*old(heap), self.v.data(*old(heap)).argv, self.v.data(*old(heap)).argc),
        ensures
            final(heap).wf(),
            self.v.valid(*final(heap)),
            self.v.data(*final(heap)) == (JobDescriptorData {
                argv: 0,
                argc: 0,
                ..self.v.data(*old(heap))
            }),
            arr_swept(*old(heap), *final(heap), self.v.h, self.v.data(*old(heap)).argv),
            forall|x: RawHandle| x != self.v.h && #[trigger] final(heap).live(x)
                ==> old(heap).live(x) && final(heap).payload_of(x) == old(heap).payload_of(x),
            final(heap).boundary() == old(heap).boundary(),
    {
        let d: JobDescriptorData = match heap.read(self.v.h) {
            Payload::JobDescriptor(d) => *d,
            _ => vstd::pervasive::unreached(),
        };
        let ghost pre = *old(heap);
        let ghost arr0 = d.argv;
        let mut arr = d.argv;
        crate::heap::slurm_free_string_array(heap, &mut arr, d.argc as usize);
        let ghost h1 = *heap;
        proof {
            if arr0 != 0 {
                assert(arr0 != self.v.h);
            }
        }
        heap.write(self.v.h, Payload::JobDescriptor(JobDescriptorData { argv: 0, argc: 0, ..d }));
        proof {
            assert(!pre.is_str(self.v.h));
            assert forall|x: RawHandle|
                x != self.v.h && x != arr0 && !(arr_entries(pre, arr0).contains(x) && pre.is_str(
                    x,
                )) && pre.live(x) implies #[trigger] heap.live(x) && heap.payload_of(x)
                == pre.payload_of(x) by {
                assert(crate::heap::string_array_untouched(pre, arr0, x));
                assert(h1.live(x) && h1.payload_of(x) == pre.payload_of(x));
            }
        }
    }

    /// Specify the command-line arguments of the job, replacing any
    /// previously installed argument array.
    pub fn set_argv(&self, heap: &mut SlurmHeap, argv: &Vec<String>)
        requires
            old(heap).wf(),
            self.v.valid(*old(heap)),
            arr_field_ok(*old(heap), self.v.data(*old(heap)).argv, self.v.data(*old(heap)).argc),
            argv@.len() <= u32::MAX,
        ensures
            final(heap).wf(),
            self.v.valid(*final(heap)),
            ({
                let d1 = self.v.data(*final(heap));
                &&& d1 == (JobDescriptorData {
                    argv: d1.argv,
                    argc: argv@.len() as u32,
                    ..self.v.data(*old(heap))
                })
                &&& string_array_at(*final(heap), d1.argv, argv@.len() as usize, argv@.map_values(
                    |s: String| s@,
                ))
            }),
            self.v.data(*old(heap)).argv != 0 ==> !final(heap).live(self.v.data(*old(heap)).argv),
            arr_replaced_frame(*old(heap), *final(heap), self.v.h, self.v.data(*old(heap)).argv),
    {
        let ghost pre = *old(heap);
        let ghost arr0 = self.v.data(*old(heap)).argv;
        self.maybe_clear_argv(heap);
        let ghost h1 = *heap;
        let (arr, size) = crate::heap::slurm_alloc_utf8_string_array(heap, argv);
        let ghost h2 = *heap;
        let d: JobDescriptorData = match heap.read(self.v.h) {
            Payload::JobDescriptor(d) => *d,
            _ => vstd::pervasive::unreached(),
        };
        heap.write(
            self.v.h,
            Payload::JobDescriptor(JobDescriptorData { argv: arr, argc: size as u32, ..d }),
        );
        proof {
            if arr0 != 0 {
                crate::heap::lemma_live_below_boundary(pre, arr0);
                assert(!h2.live(arr0));
            }
            assert forall|x: RawHandle|
                x != self.v.h && x != arr0 && !(crate::heap::arr_entries(pre, arr0).contains(x)
                    && pre.is_str(x)) && pre.live(x) implies #[trigger] heap.live(x)
                && heap.payload_of(x) == pre.payload_of(x) by {
                assert(h1.live(x) && h1.payload_of(x) == pre.payload_of(x));
                assert(h2.live(x) && h2.payload_of(x) == h1.payload_of(x));
            }
        }
    }

    /// Release the environment array, if any, and zero its size.
    pub fn maybe_clear_environment(&self, heap: &mut SlurmHeap)
        requires
            old(heap).wf(),
            self.v.valid(*old(heap)),
            arr_field_ok(
                *old(heap),
                self.v.data(*old(heap)).environment,
                self.v.data(*old(heap)).env_size,
            ),
        ensures
            final(heap).wf(),
            self.v.valid(*final(heap)),
            self.v.data(*final(heap)) == (JobDescriptorData {
                environment: 0,
                env_size: 0,
                ..self.v.data(*old(heap))
            }),
            arr_swept(*old(heap), *final(heap), self.v.h, self.v.data(*old(heap)).environment),
            forall|x: RawHandle| x != self.v.h && #[trigger] final(heap).live(x)
                ==> old(heap).live(x) && final(heap).payload_of(x) == old(heap).payload_of(x),
            final(heap).boundary() == old(heap).boundary(),
    {
        let d: JobDescriptorData = match heap.read(self.v.h) {
            Payload::JobDescriptor(d) => *d,
            _ => vstd::pervasive::unreached(),
        };
        let ghost pre = *old(heap);
        let ghost arr0 = d.environment;
        let mut arr = d.environment;
        crate::heap::slurm_free_string_array(heap, &mut arr, d.env_size as usize);
        let ghost h1 = *heap;
        proof {
            if arr0 != 0 {
                assert(arr0 != self.v.h);
            }
        }
        heap.write(
            self.v.h,
            Payload::JobDescriptor(JobDescriptorData { environment: 0, env_size: 0, ..d }),
        );
        proof {
            assert(!pre.is_str(self.v.h));
            assert forall|x: RawHandle|
                x != self.v.h && x != arr0 && !(arr_entries(pre, arr0).contains(x) && pre.is_str(
                    x,
                )) && pre.live(x) implies #[trigger] heap.live(x) && heap.payload_of(x)
                == pre.payload_of(x) by {
                assert(crate::heap::string_array_untouched(pre, arr0, x));
                assert(h1.live(x) && h1.payload_of(x) == pre.payload_of(x));
            }
        }
    }

    /// Explicitly specify the UNIX environment of the job, replacing any
    /// previously installed environment array.  Each entry is expected in
    /// `KEY=VALUE` form.
    pub fn set_environment(&self, heap: &mut SlurmHeap, env: &Vec<String>)
        requires
            old(heap).wf(),
            self.v.valid(*old(heap)),
            arr_field_ok(
                *old(heap),
                self.v.data(*old(heap)).environment,
                self.v.data(*old(heap)).env_size,
            ),
            env@.len() <= u32::MAX,
        ensures
            final(heap).wf(),
            self.v.valid(*final(heap)),
            ({
                let d1 = self.v.data(*final(heap));
                &&& d1 == (JobDescriptorData {
                    environment: d1.environment,
                    env_size: env@.len() as u32,
                    ..self.v.data(*old(heap))
                })
                &&& string_array_at(
                    *final(heap),
                    d1.environment,
                    env@.len() as usize,
                    env@.map_values(|s: String| s@),
                )
            }),
            self.v.data(*old(heap)).environment != 0 ==> !final(heap).live(
                self.v.data(*old(heap)).environment,
            ),
            arr_replaced_frame(
                *old(heap),
                *final(heap),
                self.v.h,
                self.v.data(*old(heap)).environment,
            ),
    {
        let ghost pre = *old(heap);
        let ghost arr0 = self.v.data(*old(heap)).environment;
        self.maybe_clear_environment(heap);
        let ghost h1 = *heap;
        let (arr, size) = crate::heap::slurm_alloc_utf8_string_array(heap, env);
        let ghost h2 = *heap;
        let d: JobDescriptorData = match heap.read(self.v.h) {
            Payload::JobDescriptor(d) => *d,
            _ => vstd::pervasive::unreached(),
        };
        heap.write(
            self.v.h,
            Payload::JobDescriptor(
                JobDescriptorData { environment: arr, env_size: size as u32, ..d },
            ),
        );
        proof {
            if arr0 != 0 {
                crate::heap::lemma_live_below_boundary(pre, arr0);
                assert(!h2.live(arr0));
            }
            assert forall|x: RawHandle|
                x != self.v.h && x != arr0 && !(crate::heap::arr_entries(pre, arr0).contains(x)
                    && pre.is_str(x)) && pre.live(x) implies #[trigger] heap.live(x)
                && heap.payload_of(x) == pre.payload_of(x) by {
                assert(h1.live(x) && h1.payload_of(x) == pre.payload_of(x));
                assert(h2.live(x) && h2.payload_of(x) == h1.payload_of(x));
            }
        }
    }

    /// Release everything the descriptor owns — argument strings and
    /// array, environment strings and array, every string field — and
    /// then the structure itself, in that order.  The handle is nulled,
    /// so a second call is a guaranteed no-op.
    pub fn destroy(&mut self, heap: &mut SlurmHeap)
        requires
            old(heap).wf(),
            old(self).addr() == 0 || ({
                let d = old(self).v.data(*old(heap));
                &&& old(self).v.valid(*old(heap))
                &&& arr_field_ok(*old(heap), d.argv, d.argc)
                &&& arr_field_ok(*old(heap), d.environment, d.env_size)
                &&& (d.environment == 0 || d.environment != d.argv)
            }),
        ensures
            final(heap).wf(),
            final(self).addr() == 0,
            old(self).addr() == 0 ==> *final(heap) == *old(heap),
            old(self).addr() != 0 ==> !final(heap).live(old(self).addr()),
            old(self).addr() != 0 ==> ({
                let d = old(self).v.data(*old(heap));
                &&& (old(heap).is_str(d.name) ==> !final(heap).live(d.name))
                &&& (old(heap).is_str(d.partition) ==> !final(heap).live(d.partition))
                &&& (old(heap).is_str(d.script) ==> !final(heap).live(d.script))
                &&& (old(heap).is_str(d.std_err) ==> !final(heap).live(d.std_err))
                &&& (old(heap).is_str(d.std_in) ==> !final(heap).live(d.std_in))
                &&& (old(heap).is_str(d.std_out) ==> !final(heap).live(d.std_out))
                &&& (old(heap).is_str(d.work_dir) ==> !final(heap).live(d.work_dir))
                &&& (d.argv != 0 ==> !final(heap).live(d.argv))
                &&& (d.environment != 0 ==> !final(heap).live(d.environment))
            }),
    {
        if self.v.h == 0 {
            return ;
        }
        let ghost pre = *old(heap);
        let ghost d0 = self.v.data(*old(heap));
        self.maybe_clear_argv(heap);
        let ghost h1 = *heap;
        proof {
            if d0.environment != 0 {
                assert(d0.environment != self.v.h);
                assert(!pre.is_str(d0.environment));
            }
        }
        self.maybe_clear_environment(heap);
        proof {
            assert forall|x: RawHandle| x != self.v.h && #[trigger] heap.live(x) implies
                pre.live(x) && heap.payload_of(x) == pre.payload_of(x) by {
                assert(h1.live(x) && heap.payload_of(x) == h1.payload_of(x));
            }
        }
        let d: JobDescriptorData = match heap.read(self.v.h) {
            Payload::JobDescriptor(d) => *d,
            _ => vstd::pervasive::unreached(),
        };
        let mut fields: Vec<RawHandle> = Vec::new();
        fields.push(d.name);
        fields.push(d.partition);
        fields.push(d.script);
        fields.push(d.std_err);
        fields.push(d.std_in);
        fields.push(d.std_out);
        fields.push(d.work_dir);
        let ghost field_seq = fields@;
        proof {
            assert(!pre.is_str(self.v.h));
        }
        let mut i: usize = 0;
        while i < fields.len()
            invariant
                heap.wf(),
                fields@ == field_seq,
                i <= field_seq.len(),
                heap.live(self.v.h),
                heap.payload_of(self.v.h) is JobDescriptor,
                !pre.is_str(self.v.h),
                d0.argv != 0 ==> !heap.live(d0.argv),
                d0.environment != 0 ==> !heap.live(d0.environment),
                forall|x: RawHandle| x != self.v.h && #[trigger] heap.live(x)
                    ==> pre.live(x) && heap.payload_of(x) == pre.payload_of(x),
                forall|k: int| 0 <= k < i && pre.is_str(#[trigger] field_seq[k])
                    ==> !heap.live(field_seq[k]),
            decreases field_seq.len() - i,
        {
            let mut f = fields[i];
            crate::heap::slurm_free_str_checked(heap, &mut f);
            i = i + 1;
        }
        proof {
            assert(field_seq[0] == d0.name);
            assert(field_seq[1] == d0.partition);
            assert(field_seq[2] == d0.script);
            assert(field_seq[3] == d0.std_err);
            assert(field_seq[4] == d0.std_in);
            assert(field_seq[5] == d0.std_out);
            assert(field_seq[6] == d0.work_dir);
        }
        crate::heap::slurm_free(heap, &mut self.v.h);
    }
}

/// A zeroed job descriptor, as the foreign initializer leaves it for a
/// fresh batch submission.
pub open spec fn zeroed_descriptor() -> JobDescriptorData {
    JobDescriptorData {
        group_id: 0,
        user_id: 0,
        num_tasks: 0,
        time_limit: 0,
        name: 0,
        partition: 0,
        script: 0,
        std_err: 0,
        std_in: 0,
        std_out: 0,
        work_dir: 0,
        argv: 0,
        argc: 0,
        environment: 0,
        env_size: 0,
    }
}

/// What replacing a string-array field leaves untouched: everything
/// other than the descriptor, the displaced array, the strings that
/// array held, and the freshly allocated replacements.
pub open spec fn arr_replaced_frame(
    pre: SlurmHeap,
    post: SlurmHeap,
    dh: RawHandle,
    old_arr: RawHandle,
) -> bool {
    forall|x: RawHandle|
        x != dh && x != old_arr && !(arr_entries(pre, old_arr).contains(x) && pre.is_str(x))
            && pre.live(x) ==> #[trigger] post.live(x) && post.payload_of(x) == pre.payload_of(x)
}

/// A string-array field is either absent or a live array of the recorded
/// element count.
pub open spec fn arr_field_ok(heap: SlurmHeap, arr: RawHandle, count: u32) -> bool {
    arr == 0 || (heap.live(arr) && (heap.payload_of(arr) matches Payload::StrArray(a) && a@.len()
        == count))
}

/// What replacing one string field leaves behind: the field holds a fresh
/// string with the requested text, the displaced allocation is gone, all
/// other fields are as they were, and nothing else moved.
pub open spec fn str_field_replaced(
    pre: SlurmHeap,
    post: SlurmHeap,
    v: JobDescriptor,
    field: u32,
    text: Seq<char>,
) -> bool {
    let d0 = v.data(pre);
    let d1 = v.data(post);
    let fresh = spec_str_field(d1, field);
    &&& d1 == spec_with_str_field(d0, field, fresh)
    &&& post.is_str(fresh)
    &&& post.str_at(fresh) == text
    &&& !pre.live(fresh)
    &&& pre.is_str(spec_str_field(d0, field)) ==> !post.live(spec_str_field(d0, field))
    &&& forall|x: RawHandle|
        x != v.h && x != spec_str_field(d0, field) && x != fresh && pre.live(x)
            ==> #[trigger] post.live(x) && post.payload_of(x) == pre.payload_of(x)
}

/// What clearing a string-array field leaves behind: the array and its
/// strings are gone, and everything outside the descriptor, the array and
/// its entries is untouched.
pub open spec fn arr_swept(pre: SlurmHeap, post: SlurmHeap, dh: RawHandle, arr: RawHandle) -> bool {
    &&& arr != 0 ==> !post.live(arr)
    &&& forall|x: RawHandle| arr_entries(pre, arr).contains(x) && pre.is_str(x) ==> !post.live(x)
    &&& forall|x: RawHandle|
        x != dh && x != arr && !(arr_entries(pre, arr).contains(x) && pre.is_str(x)) && pre.live(x)
            ==> #[trigger] post.live(x) && post.payload_of(x) == pre.payload_of(x)
}

/// Information returned by Slurm upon job submission (borrowed view).
#[derive(Debug)]
pub struct SubmitResponseMessage {
    pub h: RawHandle,
}

impl SubmitResponseMessage {
    /// The raw handle this view wraps.
    pub open spec fn addr(self) -> RawHandle {
        self.h
    }

    /// The view designates a live submission response.
    pub open spec fn valid(self, heap: SlurmHeap) -> bool {
        heap.live(self.h) && heap.payload_of(self.h) is SubmitResponse
    }

    /// The stored response fields.
    pub open spec fn data(self, heap: SlurmHeap) -> SubmitResponseData {
        heap.payload_of(self.h)->SubmitResponse_0
    }

    /// Get the job ID of the new job.  A nonzero server `error_code` can
    /// accompany a nonzero job ID; both are surfaced as stored, and the
    /// caller decides what the combination means.
    pub fn job_id(&self, heap: &SlurmHeap) -> (r: JobId)
        requires
            heap.wf(),
            self.valid(*heap),
        ensures
            r == self.data(*heap).job_id,
    {
        match heap.read(self.h) {
            Payload::SubmitResponse(d) => d.job_id,
            _ => vstd::pervasive::unreached(),
        }
    }

    /// Get the job-step ID of the new job.
    pub fn step_id(&self, heap: &SlurmHeap) -> (r: StepId)
        requires
            heap.wf(),
            self.valid(*heap),
        ensures
            r == self.data(*heap).step_id,
    {
        match heap.read(self.h) {
            Payload::SubmitResponse(d) => d.step_id,
            _ => vstd::pervasive::unreached(),
        }
    }

    /// Get the error code returned by the server.
    pub fn error_code(&self, heap: &SlurmHeap) -> (r: u32)
        requires
            heap.wf(),
            self.valid(*heap),
        ensures
            r == self.data(*heap).error_code,
    {
        match heap.read(self.h) {
            Payload::SubmitResponse(d) => d.error_code,
            _ => vstd::pervasive::unreached(),
        }
    }

    /// Get the "user message" returned by the server: free-form text
    /// meant to be shown to the submitting user.
    pub fn user_message(&self, heap: &SlurmHeap) -> (r: String)
        requires
            heap.wf(),
            self.valid(*heap),
            heap.is_str(self.data(*heap).job_submit_user_msg),
        ensures
            r@ == heap.str_at(self.data(*heap).job_submit_user_msg),
    {
        let mh = match heap.read(self.h) {
            Payload::SubmitResponse(d) => d.job_submit_user_msg,
            _ => vstd::pervasive::unreached(),
        };
        match heap.read(mh) {
            Payload::Str(s) => s.clone(),
            _ => vstd::pervasive::unreached(),
        }
    }
}

/// An owned version of `SubmitResponseMessage`.
#[derive(Debug)]
pub struct SubmitResponseMessageOwned {
    pub v: SubmitResponseMessage,
}

impl SubmitResponseMessageOwned {
    /// The raw handle this wrapper owns.
    pub open spec fn addr(self) -> RawHandle {
        self.v.h
    }

    /// Borrow the response view.
    pub fn as_message(&self) -> (r: &SubmitResponseMessage)
        ensures
            *r == self.v,
    {
        &self.v
    }

    /// Commit to releasing `h` exactly once.
    pub fn assume_ownership(h: RawHandle) -> (r: Self)
        ensures
            r.addr() == h,
    {
        SubmitResponseMessageOwned { v: SubmitResponseMessage { h } }
    }

    /// Release the response through its dedicated foreign destructor:
    /// the user-message string first, then the structure.  The handle is
    /// nulled, so a second call is a guaranteed no-op.
    pub fn destroy(&mut self, heap: &mut SlurmHeap)
        requires
            old(heap).wf(),
            old(self).addr() == 0 || old(self).v.valid(*old(heap)),
        ensures
            final(heap).wf(),
            final(self).addr() == 0,
            old(self).addr() == 0 ==> *final(heap) == *old(heap),
            old(self).addr() != 0 ==> !final(heap).live(old(self).addr()),
    {
        if self.v.h == 0 {
            return ;
        }
        let d: SubmitResponseData = match heap.read(self.v.h) {
            Payload::SubmitResponse(d) => *d,
            _ => vstd::pervasive::unreached(),
        };
        let mut msg = d.job_submit_user_msg;
        crate::heap::slurm_free_str_checked(heap, &mut msg);
        crate::heap::slurm_free(heap, &mut self.v.h);
    }
}

} // verus!
