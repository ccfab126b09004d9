//! A verified model of a Slurm workload-manager client binding.
//!
//! The Slurm C libraries allocate every structure they hand out from their
//! own allocator, and a safe binding has to decide, for each wrapper type,
//! whether it merely *views* foreign memory or *owns* it and must free it
//! exactly once.  This crate states and proves that discipline: a foreign
//! heap model ([`heap`]), borrowed/owned wrapper pairs for each exposed
//! structure, a generic typed list with an owned iterator ([`list`]), the
//! error-code mapping protocol ([`error`]), and the accounting and
//! submission entry points of a modelled daemon ([`runtime`]).

use vstd::prelude::*;

pub mod colorio;
pub mod db;
pub mod error;
pub mod heap;
pub mod jobinfo;
pub mod list;
pub mod recent;
pub mod runtime;
pub mod status;
pub mod submit;
pub mod util;

pub use crate::colorio::{Stream, Style};
pub use crate::db::{
    DatabaseConnection, DatabaseConnectionOwned, JobFilters, JobFiltersOwned, JobRecord, JobState,
    JobStepFilter, JobStepFilterOwned, JobStepRecordSharedFields, StepRecord,
};
pub use crate::error::{Error, SlurmError, ESLURM_INVALID_JOB_ID, ESLURM_INVALID_PARTITION_NAME};
pub use crate::heap::{
    slurm_alloc, slurm_alloc_array, slurm_alloc_utf8_string, slurm_alloc_utf8_string_array,
    slurm_free, slurm_free_string_array, Payload, RawHandle, SharedAcctFields, SlurmHeap,
    MAX_TIMESTAMP, SLURM_NO_VAL, SLURM_NO_VAL64,
};
pub use crate::jobinfo::{
    get_job_info, JobInfo, SingleJobInfoMessage, SingleJobInfoMessageOwned,
};
pub use crate::list::{
    SlurmList, SlurmListIteratorOwned, SlurmListOwned, UnownedFromSlurmPointer,
};
pub use crate::recent::{JobGroupInfo, RecentCommand, StateCount};
pub use crate::runtime::{AcctJobData, AcctStepData, LiveJobData, SlurmRuntime};
pub use crate::status::{remaining_minutes, StatusCommand};
pub use crate::submit::{
    JobDescriptor, JobDescriptorOwned, SubmitResponseMessage, SubmitResponseMessageOwned,
};
pub use crate::util::{dur_to_text, state_style};

verus! {

/// A job identifier number; this will always be `u32`.
pub type JobId = u32;

/// A job-step identifier number; this will always be `u32`.
pub type StepId = u32;

} // verus!
