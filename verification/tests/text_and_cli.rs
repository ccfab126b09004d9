//! Text utilities and the command-level arithmetic: duration rendering,
//! state decoding and coloring, grouping, and remaining-time figures.

use slurm::db::JobState;
use slurm::status::remaining_minutes;
use slurm::util::{i64_to_decimal, u64_to_decimal};
use slurm::{
    dur_to_text, state_style, AcctJobData, DatabaseConnectionOwned, JobFiltersOwned,
    JobGroupInfo, RecentCommand, SharedAcctFields, SlurmRuntime, Style, SLURM_NO_VAL64,
};

#[test]
fn decimal_rendering_is_exact() {
    assert_eq!(u64_to_decimal(0), "0");
    assert_eq!(u64_to_decimal(7), "7");
    assert_eq!(u64_to_decimal(10), "10");
    assert_eq!(u64_to_decimal(65536), "65536");
    assert_eq!(u64_to_decimal(18446744073709551615), "18446744073709551615");
    assert_eq!(i64_to_decimal(-1), "-1");
    assert_eq!(i64_to_decimal(-9223372036854775808), "-9223372036854775808");
    assert_eq!(i64_to_decimal(2017), "2017");
}

#[test]
fn durations_pick_the_coarsest_meaningful_unit() {
    assert_eq!(dur_to_text(0), "0 seconds");
    assert_eq!(dur_to_text(59), "59 seconds");
    assert_eq!(dur_to_text(179), "179 seconds");
    assert_eq!(dur_to_text(180), "3 minutes");
    assert_eq!(dur_to_text(3 * 3600 - 1), "179 minutes");
    assert_eq!(dur_to_text(3 * 3600), "3 hours");
    assert_eq!(dur_to_text(2 * 86400), "48 hours");
    assert_eq!(dur_to_text(3 * 86400), "3 days");
    assert_eq!(dur_to_text(40 * 86400 + 5), "40 days");
}

#[test]
fn state_codes_decode_in_the_foreign_order() {
    assert_eq!(JobState::from_code(0), Some(JobState::Pending));
    assert_eq!(JobState::from_code(1), Some(JobState::Running));
    assert_eq!(JobState::from_code(2), Some(JobState::Suspended));
    assert_eq!(JobState::from_code(3), Some(JobState::Complete));
    assert_eq!(JobState::from_code(4), Some(JobState::Cancelled));
    assert_eq!(JobState::from_code(5), Some(JobState::Failed));
    assert_eq!(JobState::from_code(6), Some(JobState::Timeout));
    assert_eq!(JobState::from_code(7), Some(JobState::NodeFail));
    assert_eq!(JobState::from_code(8), Some(JobState::Preempted));
    assert_eq!(JobState::from_code(9), Some(JobState::BootFail));
    assert_eq!(JobState::from_code(10), Some(JobState::Deadline));
    assert_eq!(JobState::from_code(11), Some(JobState::OutOfMemory));
    assert_eq!(JobState::from_code(12), None);
    assert_eq!(JobState::from_code(4242), None);
}

#[test]
fn states_color_by_their_outcome() {
    assert_eq!(state_style(JobState::Pending), Style::Plain);
    assert_eq!(state_style(JobState::Running), Style::Highlight);
    assert_eq!(state_style(JobState::Complete), Style::Green);
    for s in [
        JobState::Cancelled,
        JobState::Failed,
        JobState::NodeFail,
        JobState::BootFail,
        JobState::Deadline,
        JobState::OutOfMemory,
    ] {
        assert_eq!(state_style(s), Style::Red);
    }
    for s in [JobState::Suspended, JobState::Timeout, JobState::Preempted] {
        assert_eq!(state_style(s), Style::Yellow);
    }
}

#[test]
fn the_query_window_reaches_back_the_requested_span() {
    let cmd = RecentCommand { span_days: 7, limit: 30 };
    assert_eq!(cmd.min_start(1_000_000), 1_000_000 - 7 * 86400);
    let today_only = RecentCommand { span_days: 0, limit: 30 };
    assert_eq!(today_only.min_start(1_000_000), 1_000_000);
}

#[test]
fn the_output_cap_skips_the_oldest_groups() {
    let cmd = RecentCommand { span_days: 7, limit: 3 };
    assert_eq!(cmd.skip_count(2), 0);
    assert_eq!(cmd.skip_count(3), 0);
    assert_eq!(cmd.skip_count(10), 7);
    let unlimited = RecentCommand { span_days: 7, limit: 0 };
    assert_eq!(unlimited.skip_count(5), 5);
}

#[test]
fn groups_tally_their_member_states() {
    let mut rt = SlurmRuntime::new();
    rt.add_acct_job(AcctJobData {
        jobid: 800,
        array_job_id: 0,
        state: 3,
        jobname: String::from("swarm"),
        submit: 1000,
        eligible: 1000,
        timelimit: 10,
        shared: SharedAcctFields { start: 0, end: 0, exitcode: 0, vsize_max: SLURM_NO_VAL64 },
        steps: Vec::new(),
    });
    let filters = JobFiltersOwned::default(&mut rt.heap);
    let db = DatabaseConnectionOwned::new(&mut rt).expect("connection");
    let jobs = db.as_connection().get_jobs(&mut rt, filters.as_filters()).expect("query");
    let mut it = jobs.as_list().iter(&mut rt.heap);
    let rec = it.next(&mut rt.heap).expect("the record");

    let now = 1000 + 3 * 86400;
    let mut group = JobGroupInfo::new(&rt.heap, &rec, now);
    assert_eq!(group.id, 800);
    assert_eq!(group.name, "swarm");
    assert_eq!(group.submit_time, 1000);
    assert_eq!(group.submit_text, "3 days");
    assert_eq!(group.n_jobs, 0);

    group.accumulate(3);
    group.accumulate(3);
    group.accumulate(5);
    assert_eq!(group.n_jobs, 3);
    let count = |st: u32| -> usize {
        group.states.iter().filter(|e| e.state == st).map(|e| e.n).sum()
    };
    assert_eq!(count(3), 2);
    assert_eq!(count(5), 1);
    assert_eq!(count(1), 0);
    assert_eq!(group.states.len(), 2);
}

#[test]
fn remaining_time_exists_only_while_positive() {
    // Started at 1000 with a 10-minute limit.
    assert_eq!(remaining_minutes(1000, 10, 1000), Some(10));
    assert_eq!(remaining_minutes(1000, 10, 1300), Some(5));
    assert_eq!(remaining_minutes(1000, 10, 1540), Some(1));
    // Less than a whole minute left, at the limit, or past it: nothing.
    assert_eq!(remaining_minutes(1000, 10, 1541), None);
    assert_eq!(remaining_minutes(1000, 10, 1599), None);
    assert_eq!(remaining_minutes(1000, 10, 1600), None);
    assert_eq!(remaining_minutes(1000, 10, 9999), None);
}
