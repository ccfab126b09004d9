//! The error-code mapping protocol.
//!
//! Most Slurm calls return `0` on success and a nonzero status on failure;
//! the status itself is *not* the error code.  The real error code sits in
//! a separate thread-local "last errno" register that must be read right
//! after the failing call, and is then matched against a table of
//! well-known codes, with every unmatched code preserved numerically.
//! One documented family of calls is exceptional in that its return value
//! *is* already an errno; those skip the register read.  Pointer-returning
//! calls follow a parallel convention: a null result signals failure and
//! demands the register read.

use vstd::prelude::*;
use vstd::string::StringExecFns;
use crate::util::{spec_i64_decimal, i64_to_decimal};

verus! {

/// Foreign code: the requested partition name is not recognized.
pub const ESLURM_INVALID_PARTITION_NAME: i32 = 2000;

/// Foreign code: the requested job id does not name a live job.
pub const ESLURM_INVALID_JOB_ID: i32 = 2017;

/// Specifically-enumerated errors of the Slurm API.
///
/// The enumeration is not exhaustive; any code without a variant of its
/// own is carried through numerically by `Other`.
#[derive(Copy, Clone, Debug, Eq, Hash, PartialEq, Structural)]
pub enum SlurmError {
    /// The job ID did not correspond to a valid job.
    InvalidJobId,
    /// The specified partition name was not recognized.
    InvalidPartitionName,
    /// Some other Slurm error, preserved numerically.
    Other(i32),
}

/// Exact-match mapping from a foreign error code to an error value.
pub open spec fn spec_from_slurm(errno: i32) -> SlurmError {
    if errno == ESLURM_INVALID_JOB_ID {
        SlurmError::InvalidJobId
    } else if errno == ESLURM_INVALID_PARTITION_NAME {
        SlurmError::InvalidPartitionName
    } else {
        SlurmError::Other(errno)
    }
}

/// The numeric code a given error value stands for.
pub open spec fn spec_to_slurm(e: SlurmError) -> i32 {
    match e {
        SlurmError::InvalidJobId => ESLURM_INVALID_JOB_ID,
        SlurmError::InvalidPartitionName => ESLURM_INVALID_PARTITION_NAME,
        SlurmError::Other(errno) => errno,
    }
}

impl SlurmError {
    /// Map a foreign error code to its error value: well-known codes get
    /// their own variant, everything else the numeric fallback.
    pub fn from_slurm(errno: i32) -> (r: SlurmError)
        ensures
            r == spec_from_slurm(errno),
    {
        if errno == ESLURM_INVALID_JOB_ID {
            SlurmError::InvalidJobId
        } else if errno == ESLURM_INVALID_PARTITION_NAME {
            SlurmError::InvalidPartitionName
        } else {
            SlurmError::Other(errno)
        }
    }

    /// The numeric foreign code this error value stands for.
    pub fn to_slurm(&self) -> (r: i32)
        ensures
            r == spec_to_slurm(*self),
    {
        match self {
            SlurmError::InvalidJobId => ESLURM_INVALID_JOB_ID,
            SlurmError::InvalidPartitionName => ESLURM_INVALID_PARTITION_NAME,
            SlurmError::Other(errno) => *errno,
        }
    }

    /// The short human-readable message for this error value, as the
    /// foreign `strerror`-style formatter would render it.
    pub open spec fn spec_message(self) -> Seq<char> {
        match self {
            SlurmError::InvalidJobId => "Invalid job id specified"@,
            SlurmError::InvalidPartitionName => "Invalid partition name specified"@,
            SlurmError::Other(_) => "Unknown Slurm error"@,
        }
    }

    /// The full rendering of this error value: the message followed by the
    /// numeric code in parentheses.
    pub open spec fn spec_text(self) -> Seq<char> {
        self.spec_message() + " (Slurm errno "@ + spec_i64_decimal(spec_to_slurm(self) as int)
            + ")"@
    }

    /// Render the message text alone.
    pub fn message(&self) -> (r: &'static str)
        ensures
            r@ == self.spec_message(),
    {
        match self {
            SlurmError::InvalidJobId => "Invalid job id specified",
            SlurmError::InvalidPartitionName => "Invalid partition name specified",
            SlurmError::Other(_) => "Unknown Slurm error",
        }
    }

    /// Render the message together with the numeric code, in the shape
    /// `<message> (Slurm errno <code>)`.
    pub fn to_text(&self) -> (r: String)
        ensures
            r@ == self.spec_text(),
    {
        let mut s = self.message().to_owned();
        s.append(" (Slurm errno ");
        let code = i64_to_decimal(self.to_slurm() as i64);
        s.append(code.as_str());
        s.append(")");
        s
    }
}

/// Outcome of a status-returning foreign call under the usual convention:
/// a zero status is success, anything else sends the caller to the errno
/// register, whose value maps through the code table.
pub open spec fn spec_status_result(status: i32, errno: i32) -> Result<(), SlurmError> {
    if status == 0 {
        Ok(())
    } else {
        Err(spec_from_slurm(errno))
    }
}

/// Map a returned status plus the errno register read immediately after
/// the call (the register is only meaningful for a nonzero status).
pub fn result_from_status(status: i32, errno: i32) -> (r: Result<(), SlurmError>)
    ensures
        r == spec_status_result(status, errno),
{
    if status != 0 {
        Err(SlurmError::from_slurm(errno))
    } else {
        Ok(())
    }
}

/// The exceptional wrapping path, for the documented foreign calls whose
/// return value *is* already an errno: no register read happens.
pub fn result_from_errno_code(code: i32) -> (r: Result<(), SlurmError>)
    ensures
        code == 0 ==> r is Ok,
        code != 0 ==> r == Result::<(), SlurmError>::Err(spec_from_slurm(code)),
{
    if code != 0 {
        Err(SlurmError::from_slurm(code))
    } else {
        Ok(())
    }
}

/// Errors surfaced by this crate: either a mapped foreign error or a local
/// validation failure of the binding layer itself.
#[derive(Debug, PartialEq, Eq)]
pub enum Error {
    /// A foreign call failed with the contained Slurm error value.
    Slurm(SlurmError),
    /// A single-job query produced a record count other than one.
    RecordCountMismatch { jobid: u32, count: u32 },
}

impl Error {
    /// Render a one-line description of the error.
    pub fn to_text(&self) -> (r: String)
        ensures
            self matches Error::Slurm(e) ==> r@ == e.spec_text(),
            self matches Error::RecordCountMismatch { jobid, count } ==> r@
                == "expected exactly one info record for job "@ + spec_i64_decimal(jobid as int)
                + "; got "@ + spec_i64_decimal(count as int) + " items"@,
    {
        match self {
            Error::Slurm(e) => e.to_text(),
            Error::RecordCountMismatch { jobid, count } => {
                let mut s = "expected exactly one info record for job ".to_owned();
                let jid_text = i64_to_decimal(*jobid as i64);
                s.append(jid_text.as_str());
                s.append("; got ");
                let count_text = i64_to_decimal(*count as i64);
                s.append(count_text.as_str());
                s.append(" items");
                s
            },
        }
    }
}

} // verus!
