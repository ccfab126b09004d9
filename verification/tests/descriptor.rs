//! The job descriptor: field round trips, replacement of owned strings
//! and arrays, and ordered destruction.

use slurm::heap::{clone_handles, Payload};
use slurm::{JobDescriptorOwned, SlurmHeap};

#[test]
fn scalar_fields_round_trip() {
    let mut heap = SlurmHeap::new();
    let desc = JobDescriptorOwned::new(&mut heap);
    let v = desc.as_descriptor();
    assert_eq!(v.num_tasks(&heap), 0);
    v.set_num_tasks(&mut heap, 16);
    v.set_time_limit(&mut heap, 120);
    v.set_uid(&mut heap, 1001);
    v.set_gid(&mut heap, 100);
    assert_eq!(v.num_tasks(&heap), 16);
    assert_eq!(v.time_limit(&heap), 120);
    assert_eq!(v.uid(&heap), 1001);
    assert_eq!(v.gid(&heap), 100);
}

#[test]
fn string_fields_round_trip() {
    let mut heap = SlurmHeap::new();
    let desc = JobDescriptorOwned::new(&mut heap);
    desc.set_name(&mut heap, "analysis");
    desc.set_partition(&mut heap, "debug");
    desc.set_script(&mut heap, "#! /bin/sh\ntrue\n");
    desc.set_stderr_path(&mut heap, "/tmp/err");
    desc.set_stdin_path(&mut heap, "/dev/null");
    desc.set_stdout_path(&mut heap, "/tmp/out");
    desc.set_work_dir(&mut heap, "/scratch");
    let v = desc.as_descriptor();
    assert_eq!(v.name(&heap), "analysis");
    assert_eq!(v.partition(&heap), "debug");
    assert_eq!(v.script(&heap), "#! /bin/sh\ntrue\n");
    assert_eq!(v.stderr_path(&heap), "/tmp/err");
    assert_eq!(v.stdin_path(&heap), "/dev/null");
    assert_eq!(v.stdout_path(&heap), "/tmp/out");
    assert_eq!(v.work_dir(&heap), "/scratch");
}

#[test]
fn replacing_a_string_releases_the_old_one() {
    let mut heap = SlurmHeap::new();
    let desc = JobDescriptorOwned::new(&mut heap);
    desc.set_name(&mut heap, "first");
    let first_h = match heap.read(desc.v.h) {
        Payload::JobDescriptor(d) => d.name,
        _ => panic!("expected a descriptor payload"),
    };
    desc.set_name(&mut heap, "second");
    assert!(!heap.is_live(first_h));
    assert_eq!(desc.as_descriptor().name(&heap), "second");
}

#[test]
fn replacing_argv_releases_the_old_array_and_strings() {
    let mut heap = SlurmHeap::new();
    let desc = JobDescriptorOwned::new(&mut heap);
    desc.set_argv(&mut heap, &vec![String::from("prog"), String::from("-v")]);
    let (old_arr, old_entries) = match heap.read(desc.v.h) {
        Payload::JobDescriptor(d) => match heap.read(d.argv) {
            Payload::StrArray(a) => (d.argv, clone_handles(a)),
            _ => panic!("expected a handle array"),
        },
        _ => panic!("expected a descriptor payload"),
    };
    desc.set_argv(&mut heap, &vec![String::from("prog")]);
    assert!(!heap.is_live(old_arr));
    for &e in old_entries.iter() {
        assert!(!heap.is_live(e));
    }
    match heap.read(desc.v.h) {
        Payload::JobDescriptor(d) => assert_eq!(d.argc, 1),
        _ => panic!("expected a descriptor payload"),
    }
}

#[test]
fn environment_mirrors_the_argv_discipline() {
    let mut heap = SlurmHeap::new();
    let desc = JobDescriptorOwned::new(&mut heap);
    desc.set_environment(
        &mut heap,
        &vec![String::from("HOME=/home/u"), String::from("LANG=C")],
    );
    match heap.read(desc.v.h) {
        Payload::JobDescriptor(d) => {
            assert_eq!(d.env_size, 2);
            assert!(d.environment != 0);
        },
        _ => panic!("expected a descriptor payload"),
    }
    desc.maybe_clear_environment(&mut heap);
    match heap.read(desc.v.h) {
        Payload::JobDescriptor(d) => {
            assert_eq!(d.env_size, 0);
            assert_eq!(d.environment, 0);
        },
        _ => panic!("expected a descriptor payload"),
    }
}

#[test]
fn destroy_releases_the_whole_tree_exactly_once() {
    let mut heap = SlurmHeap::new();
    let mut desc = JobDescriptorOwned::new(&mut heap);
    desc.set_name(&mut heap, "doomed");
    desc.set_script(&mut heap, "#! /bin/sh\n");
    desc.set_argv(&mut heap, &vec![String::from("doomed")]);
    desc.set_environment(&mut heap, &vec![String::from("K=V")]);
    let (dh, name_h, argv_h) = match heap.read(desc.v.h) {
        Payload::JobDescriptor(d) => (desc.v.h, d.name, d.argv),
        _ => panic!("expected a descriptor payload"),
    };
    desc.destroy(&mut heap);
    assert_eq!(desc.v.h, 0);
    assert!(!heap.is_live(dh));
    assert!(!heap.is_live(name_h));
    assert!(!heap.is_live(argv_h));
    // The nulled wrapper makes a second destruction a no-op.
    desc.destroy(&mut heap);
    assert_eq!(desc.v.h, 0);
}
