//! The error-code mapping protocol and its rendering.

use slurm::error::{result_from_errno_code, result_from_status};
use slurm::{SlurmError, ESLURM_INVALID_JOB_ID, ESLURM_INVALID_PARTITION_NAME};

#[test]
fn well_known_codes_map_to_their_variants() {
    assert_eq!(SlurmError::from_slurm(ESLURM_INVALID_JOB_ID), SlurmError::InvalidJobId);
    assert_eq!(
        SlurmError::from_slurm(ESLURM_INVALID_PARTITION_NAME),
        SlurmError::InvalidPartitionName
    );
}

#[test]
fn unknown_codes_are_preserved_numerically() {
    assert_eq!(SlurmError::from_slurm(42), SlurmError::Other(42));
    assert_eq!(SlurmError::from_slurm(-7), SlurmError::Other(-7));
    assert_eq!(SlurmError::from_slurm(0), SlurmError::Other(0));
}

#[test]
fn codes_round_trip_through_the_mapping() {
    for code in [ESLURM_INVALID_JOB_ID, ESLURM_INVALID_PARTITION_NAME, 1, 9999, -3] {
        assert_eq!(SlurmError::from_slurm(code).to_slurm(), code);
    }
}

#[test]
fn rendering_appends_the_numeric_code() {
    assert_eq!(
        SlurmError::InvalidJobId.to_text(),
        "Invalid job id specified (Slurm errno 2017)"
    );
    assert_eq!(
        SlurmError::InvalidPartitionName.to_text(),
        "Invalid partition name specified (Slurm errno 2000)"
    );
    assert_eq!(
        SlurmError::Other(1234).to_text(),
        "Unknown Slurm error (Slurm errno 1234)"
    );
    assert_eq!(
        SlurmError::Other(-5).to_text(),
        "Unknown Slurm error (Slurm errno -5)"
    );
}

#[test]
fn zero_status_is_success_and_skips_the_register() {
    // The register value is irrelevant on a zero status.
    assert!(result_from_status(0, ESLURM_INVALID_JOB_ID).is_ok());
}

#[test]
fn nonzero_status_maps_the_register_value() {
    assert_eq!(
        result_from_status(-1, ESLURM_INVALID_JOB_ID),
        Err(SlurmError::InvalidJobId)
    );
    assert_eq!(result_from_status(7, 555), Err(SlurmError::Other(555)));
}

#[test]
fn the_exceptional_path_maps_the_return_value_itself() {
    assert!(result_from_errno_code(0).is_ok());
    assert_eq!(
        result_from_errno_code(ESLURM_INVALID_PARTITION_NAME),
        Err(SlurmError::InvalidPartitionName)
    );
    assert_eq!(result_from_errno_code(321), Err(SlurmError::Other(321)));
}
