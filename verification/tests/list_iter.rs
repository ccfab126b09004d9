//! The generic list and its iterator: absent-versus-empty equivalence,
//! the append round trip, and exhaustion behavior.

use slurm::{JobStepFilter, JobStepFilterOwned, SlurmHeap, SlurmList, SLURM_NO_VAL};

#[test]
fn absent_list_yields_zero_elements() {
    let mut heap = SlurmHeap::new();
    let l: SlurmList<JobStepFilter> = SlurmList::null();
    assert_eq!(l.len(&heap), 0);
    let mut it = l.iter(&mut heap);
    assert!(it.next(&mut heap).is_none());
    assert!(it.next(&mut heap).is_none());
    it.destroy(&mut heap);
}

#[test]
fn empty_list_behaves_like_absent_list() {
    let mut heap = SlurmHeap::new();
    // Appending once and never reading leaves a live list; a fresh null
    // view and a drained iterator agree on "nothing left".
    let mut l: SlurmList<JobStepFilter> = SlurmList::null();
    let item = JobStepFilterOwned::new(&mut heap, 7);
    l.append(&mut heap, item);
    let mut it = l.iter(&mut heap);
    assert!(it.next(&mut heap).is_some());
    assert!(it.next(&mut heap).is_none());
    assert!(it.next(&mut heap).is_none());
    it.destroy(&mut heap);
}

#[test]
fn append_then_iterate_round_trips() {
    let mut heap = SlurmHeap::new();
    let mut l: SlurmList<JobStepFilter> = SlurmList::null();
    let item = JobStepFilterOwned::new(&mut heap, 4242);
    l.append(&mut heap, item);
    assert!(l.h != 0);
    assert_eq!(l.len(&heap), 1);

    let mut it = l.iter(&mut heap);
    let yielded = it.next(&mut heap).expect("one element expected");
    assert_eq!(yielded.jobid(&heap), 4242);
    assert!(it.next(&mut heap).is_none());
    it.destroy(&mut heap);
}

#[test]
fn append_keeps_earlier_elements_in_order() {
    let mut heap = SlurmHeap::new();
    let mut l: SlurmList<JobStepFilter> = SlurmList::null();
    for jid in [11u32, 22, 33] {
        let item = JobStepFilterOwned::new(&mut heap, jid);
        l.append(&mut heap, item);
    }
    let mut it = l.iter(&mut heap);
    let mut seen = Vec::new();
    while let Some(v) = it.next(&mut heap) {
        seen.push(v.jobid(&heap));
    }
    assert_eq!(seen, vec![11, 22, 33]);
    it.destroy(&mut heap);
}

#[test]
fn exhausted_iterator_stays_exhausted() {
    let mut heap = SlurmHeap::new();
    let mut l: SlurmList<JobStepFilter> = SlurmList::null();
    let one = JobStepFilterOwned::new(&mut heap, 1);
    l.append(&mut heap, one);
    let two = JobStepFilterOwned::new(&mut heap, 2);
    l.append(&mut heap, two);
    let mut it = l.iter(&mut heap);
    let mut yields = 0;
    while it.next(&mut heap).is_some() {
        yields += 1;
    }
    assert_eq!(yields, 2);
    for _ in 0..4 {
        assert!(it.next(&mut heap).is_none());
    }
    it.destroy(&mut heap);
}

#[test]
fn iterator_destroy_releases_only_the_cursor() {
    let mut heap = SlurmHeap::new();
    let mut l: SlurmList<JobStepFilter> = SlurmList::null();
    let item = JobStepFilterOwned::new(&mut heap, 9);
    l.append(&mut heap, item);
    let mut it = l.iter(&mut heap);
    let cursor = it.h;
    it.destroy(&mut heap);
    assert_eq!(it.h, 0);
    assert!(!heap.is_live(cursor));
    // The list and its element are untouched: a fresh walk still works.
    let mut it2 = l.iter(&mut heap);
    assert_eq!(it2.next(&mut heap).expect("element").jobid(&heap), 9);
    it2.destroy(&mut heap);
    // Destroying a spent iterator again is a no-op.
    it.destroy(&mut heap);
    assert_eq!(it.h, 0);
}

#[test]
fn step_filter_carries_the_sentinels() {
    let mut heap = SlurmHeap::new();
    let f = JobStepFilterOwned::new(&mut heap, 77);
    match heap.read(f.v.h) {
        slurm::Payload::JobStepFilter(d) => {
            assert_eq!(d.jobid, 77);
            assert_eq!(d.array_task_id, SLURM_NO_VAL);
            assert_eq!(d.pack_job_offset, SLURM_NO_VAL);
            assert_eq!(d.stepid, SLURM_NO_VAL);
        },
        _ => panic!("expected a step-filter payload"),
    }
    let mut f = f;
    f.destroy(&mut heap);
    assert_eq!(f.v.h, 0);
}
