//! End-to-end scenarios: batch submission, accounting queries through
//! filters, single-job lookups, and step iteration.

use slurm::error::Error;
use slurm::{
    get_job_info, AcctJobData, AcctStepData, DatabaseConnectionOwned, JobDescriptorOwned,
    JobFiltersOwned, JobStepFilterOwned, SharedAcctFields, SlurmError, SlurmRuntime,
    ESLURM_INVALID_JOB_ID, SLURM_NO_VAL64,
};

fn plain_job(jobid: u32, name: &str) -> AcctJobData {
    AcctJobData {
        jobid,
        array_job_id: 0,
        state: 3,
        jobname: String::from(name),
        submit: 500,
        eligible: 600,
        timelimit: 30,
        shared: SharedAcctFields { start: 700, end: 800, exitcode: 0, vsize_max: SLURM_NO_VAL64 },
        steps: Vec::new(),
    }
}

#[test]
fn submitting_a_batch_job_yields_a_nonzero_job_id() {
    let mut rt = SlurmRuntime::new();
    rt.submit_user_msg = String::from("accepted by the scheduler");
    let desc = JobDescriptorOwned::new(&mut rt.heap);
    desc.set_name(&mut rt.heap, "helloworld");
    desc.set_script(&mut rt.heap, "#! /bin/bash\nset -e -x\necho hello world \"$@\"\n");
    desc.set_stdin_path(&mut rt.heap, "/dev/null");
    desc.set_stdout_path(&mut rt.heap, "/tmp/%j.log");
    desc.set_stderr_path(&mut rt.heap, "/tmp/%j.log");
    desc.set_work_dir(&mut rt.heap, "/tmp");
    desc.set_argv(&mut rt.heap, &vec![String::from("helloworld")]);
    desc.as_descriptor().set_num_tasks(&mut rt.heap, 1);
    desc.as_descriptor().set_time_limit(&mut rt.heap, 5);
    desc.as_descriptor().set_uid(&mut rt.heap, 1000);
    desc.as_descriptor().set_gid(&mut rt.heap, 1000);

    let msg = desc.as_descriptor().submit_batch(&mut rt).expect("submission accepted");
    let m = msg.as_message();
    assert!(m.job_id(&rt.heap) != 0);
    assert_eq!(m.step_id(&rt.heap), 0);
    assert_eq!(m.error_code(&rt.heap), 0);
    assert_eq!(m.user_message(&rt.heap), "accepted by the scheduler");

    // Consecutive submissions get fresh ids.
    let again = desc.as_descriptor().submit_batch(&mut rt).expect("second submission");
    assert!(again.as_message().job_id(&rt.heap) != 0);
    assert_ne!(m.job_id(&rt.heap), again.as_message().job_id(&rt.heap));
}

#[test]
fn a_rejected_submission_carries_the_numeric_code() {
    let mut rt = SlurmRuntime::new();
    rt.submit_fail_errno = 9001;
    let desc = JobDescriptorOwned::new(&mut rt.heap);
    let err = desc.as_descriptor().submit_batch(&mut rt).expect_err("submission refused");
    assert_eq!(err, SlurmError::Other(9001));
    assert_eq!(err.to_slurm(), 9001);
    assert_eq!(rt.get_last_errno(), 9001);
}

#[test]
fn a_server_side_error_code_can_ride_along_a_job_id() {
    // The upstream interface allows a nonzero error code next to a
    // nonzero job id; both come through untouched for the caller.
    let mut rt = SlurmRuntime::new();
    rt.submit_error_code = 4;
    let desc = JobDescriptorOwned::new(&mut rt.heap);
    let msg = desc.as_descriptor().submit_batch(&mut rt).expect("accepted with a warning");
    assert!(msg.as_message().job_id(&rt.heap) != 0);
    assert_eq!(msg.as_message().error_code(&rt.heap), 4);
}

#[test]
fn default_filters_return_every_record() {
    let mut rt = SlurmRuntime::new();
    rt.add_acct_job(plain_job(10, "a"));
    rt.add_acct_job(plain_job(20, "b"));
    rt.add_acct_job(plain_job(30, "c"));

    let filters = JobFiltersOwned::default(&mut rt.heap);
    // The default disables usage truncation and attaches no step list.
    match rt.heap.read(filters.v.h) {
        slurm::Payload::JobFilters(d) => {
            assert_eq!(d.without_usage_truncation, 1);
            assert_eq!(d.step_list, 0);
        },
        _ => panic!("expected a filter payload"),
    }

    let db = DatabaseConnectionOwned::new(&mut rt).expect("connection");
    let jobs = db.as_connection().get_jobs(&mut rt, filters.as_filters()).expect("query");
    let mut it = jobs.as_list().iter(&mut rt.heap);
    let mut ids = Vec::new();
    while let Some(rec) = it.next(&mut rt.heap) {
        ids.push(rec.job_id(&rt.heap));
    }
    assert_eq!(ids, vec![10, 20, 30]);
}

#[test]
fn a_job_id_filter_narrows_the_result_set() {
    let mut rt = SlurmRuntime::new();
    rt.add_acct_job(plain_job(10, "a"));
    rt.add_acct_job(plain_job(20, "b"));
    rt.add_acct_job(plain_job(10, "a-again"));

    let filters = JobFiltersOwned::default(&mut rt.heap);
    let mut step_list = filters.as_filters().step_list_mut(&mut rt.heap);
    let item = JobStepFilterOwned::new(&mut rt.heap, 10);
    step_list.append(&mut rt.heap, item);

    let db = DatabaseConnectionOwned::new(&mut rt).expect("connection");
    let jobs = db.as_connection().get_jobs(&mut rt, filters.as_filters()).expect("query");
    let mut it = jobs.as_list().iter(&mut rt.heap);
    let mut names = Vec::new();
    while let Some(rec) = it.next(&mut rt.heap) {
        assert_eq!(rec.job_id(&rt.heap), 10);
        names.push(rec.job_name(&rt.heap));
    }
    assert_eq!(names, vec![String::from("a"), String::from("a-again")]);
}

#[test]
fn an_unfiltered_query_on_an_empty_database_is_empty_not_an_error() {
    let mut rt = SlurmRuntime::new();
    let filters = JobFiltersOwned::default(&mut rt.heap);
    let db = DatabaseConnectionOwned::new(&mut rt).expect("connection");
    let jobs = db.as_connection().get_jobs(&mut rt, filters.as_filters()).expect("query");
    let mut it = jobs.as_list().iter(&mut rt.heap);
    assert!(it.next(&mut rt.heap).is_none());
}

#[test]
fn a_refused_connection_carries_the_register_value() {
    let mut rt = SlurmRuntime::new();
    rt.connect_fail_errno = 7777;
    let err = DatabaseConnectionOwned::new(&mut rt).expect_err("connection refused");
    assert_eq!(err, SlurmError::Other(7777));
    assert_eq!(rt.get_last_errno(), 7777);
}

#[test]
fn a_vanished_job_reports_exactly_invalid_job_id() {
    let mut rt = SlurmRuntime::new();
    rt.add_live_job(1, String::from("debug"));
    let err = get_job_info(&mut rt, 999).expect_err("job is gone");
    assert_eq!(err, Error::Slurm(SlurmError::InvalidJobId));
    assert_eq!(rt.get_last_errno(), ESLURM_INVALID_JOB_ID);
    match err {
        Error::Slurm(e) => assert_eq!(e.to_text(), "Invalid job id specified (Slurm errno 2017)"),
        _ => panic!("expected the mapped foreign error"),
    }
}

#[test]
fn a_live_job_comes_back_with_its_partition() {
    let mut rt = SlurmRuntime::new();
    rt.add_live_job(31337, String::from("batch"));
    let msg = get_job_info(&mut rt, 31337).expect("job found");
    let m = msg.as_message();
    assert_eq!(m.record_count(&rt.heap), 1);
    let info = m.job(&rt.heap);
    assert_eq!(info.job_id(&rt.heap), 31337);
    assert_eq!(info.partition(&rt.heap), "batch");
}

#[test]
fn a_duplicated_record_count_is_a_local_validation_error() {
    let mut rt = SlurmRuntime::new();
    rt.add_live_job(5, String::from("one"));
    rt.add_live_job(5, String::from("two"));
    let err = get_job_info(&mut rt, 5).expect_err("count mismatch");
    assert_eq!(err, Error::RecordCountMismatch { jobid: 5, count: 2 });
    assert_eq!(
        err.to_text(),
        "expected exactly one info record for job 5; got 2 items"
    );
}

#[test]
fn iterating_steps_yields_each_exactly_once() {
    let mut rt = SlurmRuntime::new();
    let mut j = plain_job(40, "stepping");
    for k in 0..5u32 {
        j.steps.push(AcctStepData {
            stepid: k,
            stepname: format!("step-{}", k),
            shared: SharedAcctFields { start: 0, end: 0, exitcode: 0, vsize_max: SLURM_NO_VAL64 },
        });
    }
    rt.add_acct_job(j);

    let filters = JobFiltersOwned::default(&mut rt.heap);
    let db = DatabaseConnectionOwned::new(&mut rt).expect("connection");
    let jobs = db.as_connection().get_jobs(&mut rt, filters.as_filters()).expect("query");
    let mut it = jobs.as_list().iter(&mut rt.heap);
    let rec = it.next(&mut rt.heap).expect("the job");
    let steps = rec.steps(&rt.heap);
    let mut step_it = steps.iter(&mut rt.heap);
    let mut seen = Vec::new();
    while let Some(s) = step_it.next(&mut rt.heap) {
        seen.push(s.step_id(&rt.heap));
    }
    assert_eq!(seen, vec![0, 1, 2, 3, 4]);
    for _ in 0..3 {
        assert!(step_it.next(&mut rt.heap).is_none());
    }
}

#[test]
fn destroying_a_result_list_releases_its_records_once() {
    let mut rt = SlurmRuntime::new();
    rt.add_acct_job(plain_job(50, "transient"));
    let filters = JobFiltersOwned::default(&mut rt.heap);
    let db = DatabaseConnectionOwned::new(&mut rt).expect("connection");
    let mut jobs = db.as_connection().get_jobs(&mut rt, filters.as_filters()).expect("query");
    let list_h = jobs.l.h;
    let mut it = jobs.as_list().iter(&mut rt.heap);
    let rec = it.next(&mut rt.heap).expect("the record");
    let rec_h = rec.h;
    it.destroy(&mut rt.heap);

    jobs.destroy(&mut rt.heap);
    assert_eq!(jobs.l.h, 0);
    assert!(!rt.heap.is_live(list_h));
    assert!(!rt.heap.is_live(rec_h));
    // A second destroy finds a nulled handle and does nothing.
    jobs.destroy(&mut rt.heap);
    assert_eq!(jobs.l.h, 0);
}

#[test]
fn a_failing_query_reads_the_register() {
    let mut rt = SlurmRuntime::new();
    rt.add_acct_job(plain_job(60, "unreachable"));
    rt.query_fail_errno = 2000;
    let filters = JobFiltersOwned::default(&mut rt.heap);
    let db = DatabaseConnectionOwned::new(&mut rt).expect("connection");
    let err = db.as_connection().get_jobs(&mut rt, filters.as_filters()).expect_err("refused");
    assert_eq!(err, SlurmError::InvalidPartitionName);
    assert_eq!(rt.get_last_errno(), 2000);
}
