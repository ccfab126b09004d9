//! Accounting-record accessors: sentinel timestamps, paired durations,
//! and the shared job/step field conversions.

use slurm::{
    AcctJobData, AcctStepData, DatabaseConnectionOwned, JobFiltersOwned, JobRecord,
    JobStepRecordSharedFields, SharedAcctFields, SlurmRuntime, SLURM_NO_VAL64,
};

fn shared(start: i64, end: i64, exitcode: i32, vsize_max: u64) -> SharedAcctFields {
    SharedAcctFields { start, end, exitcode, vsize_max }
}

fn job(jobid: u32, name: &str, submit: i64, eligible: i64, s: SharedAcctFields) -> AcctJobData {
    AcctJobData {
        jobid,
        array_job_id: 0,
        state: 1,
        jobname: String::from(name),
        submit,
        eligible,
        timelimit: 60,
        shared: s,
        steps: Vec::new(),
    }
}

/// Query everything and hand back the first record's view.
fn first_record(rt: &mut SlurmRuntime) -> JobRecord {
    let filters = JobFiltersOwned::default(&mut rt.heap);
    let db = DatabaseConnectionOwned::new(rt).expect("connection");
    let jobs = db.as_connection().get_jobs(rt, filters.as_filters()).expect("query");
    let mut it = jobs.as_list().iter(&mut rt.heap);
    let rec = it.next(&mut rt.heap).expect("one record");
    rec
}

#[test]
fn zero_timestamps_mean_no_value() {
    let mut rt = SlurmRuntime::new();
    rt.add_acct_job(job(1, "idle", 1000, 0, shared(0, 0, 0, SLURM_NO_VAL64)));
    let rec = first_record(&mut rt);
    assert_eq!(rec.eligible_time(&rt.heap), None);
    assert_eq!(rec.start_time(&rt.heap), None);
    assert_eq!(rec.end_time(&rt.heap), None);
    assert_eq!(rec.exit_code(&rt.heap), None);
    assert_eq!(rec.max_vm_size(&rt.heap), None);
    assert_eq!(rec.wallclock_duration(&rt.heap), None);
    assert_eq!(rec.eligible_wait_duration(&rt.heap), None);
    assert_eq!(rec.wait_duration(&rt.heap), None);
}

#[test]
fn nonzero_timestamps_come_back_as_epoch_seconds() {
    let mut rt = SlurmRuntime::new();
    rt.add_acct_job(job(2, "ran", 1000, 1100, shared(1200, 1500, 3, 2048)));
    let rec = first_record(&mut rt);
    assert_eq!(rec.submit_time(&rt.heap), 1000);
    assert_eq!(rec.eligible_time(&rt.heap), Some(1100));
    assert_eq!(rec.start_time(&rt.heap), Some(1200));
    assert_eq!(rec.end_time(&rt.heap), Some(1500));
    assert_eq!(rec.exit_code(&rt.heap), Some(3));
    assert_eq!(rec.max_vm_size(&rt.heap), Some(2048));
    assert_eq!(rec.job_name(&rt.heap), "ran");
    assert_eq!(rec.time_limit(&rt.heap), 60);
}

#[test]
fn durations_exist_exactly_when_both_endpoints_do() {
    let mut rt = SlurmRuntime::new();
    rt.add_acct_job(job(3, "full", 1000, 1100, shared(1200, 1500, 0, SLURM_NO_VAL64)));
    rt.add_acct_job(job(4, "started", 2000, 2100, shared(2200, 0, 0, SLURM_NO_VAL64)));
    rt.add_acct_job(job(5, "pending", 3000, 0, shared(0, 0, 0, SLURM_NO_VAL64)));

    let filters = JobFiltersOwned::default(&mut rt.heap);
    let db = DatabaseConnectionOwned::new(&mut rt).expect("connection");
    let jobs = db.as_connection().get_jobs(&mut rt, filters.as_filters()).expect("query");
    let mut it = jobs.as_list().iter(&mut rt.heap);

    let full = it.next(&mut rt.heap).expect("record");
    assert_eq!(full.wallclock_duration(&rt.heap), Some(300));
    assert_eq!(full.eligible_wait_duration(&rt.heap), Some(100));
    assert_eq!(full.wait_duration(&rt.heap), Some(200));

    let started = it.next(&mut rt.heap).expect("record");
    assert_eq!(started.wallclock_duration(&rt.heap), None);
    assert_eq!(started.eligible_wait_duration(&rt.heap), Some(100));
    assert_eq!(started.wait_duration(&rt.heap), Some(200));

    let pending = it.next(&mut rt.heap).expect("record");
    assert_eq!(pending.wallclock_duration(&rt.heap), None);
    assert_eq!(pending.eligible_wait_duration(&rt.heap), None);
    assert_eq!(pending.wait_duration(&rt.heap), None);

    assert!(it.next(&mut rt.heap).is_none());
}

#[test]
fn exit_code_gated_by_end_even_when_zero() {
    let mut rt = SlurmRuntime::new();
    // A recorded failure: nonzero exit code once ended.
    rt.add_acct_job(job(6, "failed", 100, 200, shared(300, 400, 139, SLURM_NO_VAL64)));
    let rec = first_record(&mut rt);
    assert_eq!(rec.exit_code(&rt.heap), Some(139));
}

#[test]
fn vm_size_sentinel_is_distinct_from_zero() {
    let mut rt = SlurmRuntime::new();
    rt.add_acct_job(job(7, "tiny", 100, 100, shared(100, 200, 0, 0)));
    let rec = first_record(&mut rt);
    // A zero measurement is a value; only the reserved sentinel is not.
    assert_eq!(rec.max_vm_size(&rt.heap), Some(0));
}

#[test]
fn array_members_group_under_their_master() {
    let mut rt = SlurmRuntime::new();
    let mut member = job(901, "member", 100, 100, shared(0, 0, 0, SLURM_NO_VAL64));
    member.array_job_id = 900;
    rt.add_acct_job(member);
    rt.add_acct_job(job(902, "solo", 100, 100, shared(0, 0, 0, SLURM_NO_VAL64)));

    let filters = JobFiltersOwned::default(&mut rt.heap);
    let db = DatabaseConnectionOwned::new(&mut rt).expect("connection");
    let jobs = db.as_connection().get_jobs(&mut rt, filters.as_filters()).expect("query");
    let mut it = jobs.as_list().iter(&mut rt.heap);

    let member = it.next(&mut rt.heap).expect("record");
    assert_eq!(member.array_job_id(&rt.heap), Some(900));
    assert_eq!(member.group_id(&rt.heap), 900);

    let solo = it.next(&mut rt.heap).expect("record");
    assert_eq!(solo.array_job_id(&rt.heap), None);
    assert_eq!(solo.group_id(&rt.heap), 902);
}

#[test]
fn steps_share_the_conversion_rules() {
    let mut rt = SlurmRuntime::new();
    let mut j = job(8, "stepped", 100, 100, shared(100, 900, 0, SLURM_NO_VAL64));
    j.steps = vec![
        AcctStepData {
            stepid: 0,
            stepname: String::from("setup"),
            shared: shared(110, 160, 0, 4096),
        },
        AcctStepData {
            stepid: 1,
            stepname: String::from("compute"),
            shared: shared(160, 0, 0, SLURM_NO_VAL64),
        },
    ];
    rt.add_acct_job(j);
    let rec = first_record(&mut rt);
    let steps = rec.steps(&rt.heap);
    let mut it = steps.iter(&mut rt.heap);

    let setup = it.next(&mut rt.heap).expect("step");
    assert_eq!(setup.step_id(&rt.heap), 0);
    assert_eq!(setup.step_name(&rt.heap), "setup");
    assert_eq!(setup.wallclock_duration(&rt.heap), Some(50));
    assert_eq!(setup.exit_code(&rt.heap), Some(0));
    assert_eq!(setup.max_vm_size(&rt.heap), Some(4096));

    let compute = it.next(&mut rt.heap).expect("step");
    assert_eq!(compute.step_name(&rt.heap), "compute");
    assert_eq!(compute.start_time(&rt.heap), Some(160));
    assert_eq!(compute.wallclock_duration(&rt.heap), None);
    assert_eq!(compute.max_vm_size(&rt.heap), None);

    assert!(it.next(&mut rt.heap).is_none());
}
