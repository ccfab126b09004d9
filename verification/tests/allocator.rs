//! Exercising the foreign allocator adapter: allocation, exactly-once
//! release, and string arrays.

use slurm::heap::{clone_handles, Payload};
use slurm::{
    slurm_alloc, slurm_alloc_array, slurm_alloc_utf8_string, slurm_alloc_utf8_string_array,
    slurm_free, slurm_free_string_array, SlurmHeap,
};

#[test]
fn string_allocation_round_trips() {
    let mut heap = SlurmHeap::new();
    let h = slurm_alloc_utf8_string(&mut heap, "hello world");
    assert!(h != 0);
    assert!(heap.is_live(h));
    match heap.read(h) {
        Payload::Str(s) => assert_eq!(s, "hello world"),
        _ => panic!("expected a string payload"),
    }
}

#[test]
fn free_nulls_the_handle_and_releases_once() {
    let mut heap = SlurmHeap::new();
    let mut h = slurm_alloc_utf8_string(&mut heap, "ephemeral");
    let recorded = h;
    assert!(heap.is_live(recorded));
    slurm_free(&mut heap, &mut h);
    assert_eq!(h, 0);
    assert!(!heap.is_live(recorded));
    // The nulled handle makes a second release a guaranteed no-op.
    slurm_free(&mut heap, &mut h);
    assert_eq!(h, 0);
    assert!(!heap.is_live(recorded));
}

#[test]
fn freed_addresses_are_never_reissued() {
    let mut heap = SlurmHeap::new();
    let mut h = slurm_alloc_utf8_string(&mut heap, "one");
    let first = h;
    slurm_free(&mut heap, &mut h);
    let second = slurm_alloc_utf8_string(&mut heap, "two");
    assert_ne!(first, second);
    assert!(!heap.is_live(first));
    assert!(heap.is_live(second));
}

#[test]
fn array_allocation_is_zeroed() {
    let mut heap = SlurmHeap::new();
    let h = slurm_alloc_array(&mut heap, 3);
    match heap.read(h) {
        Payload::StrArray(a) => {
            assert_eq!(a.len(), 3);
            assert!(a.iter().all(|&e| e == 0));
        },
        _ => panic!("expected a handle array payload"),
    }
}

#[test]
fn string_array_round_trips_and_frees_deeply() {
    let mut heap = SlurmHeap::new();
    let strings = vec![
        String::from("alpha"),
        String::from("beta"),
        String::from("gamma"),
    ];
    let (arr, count) = slurm_alloc_utf8_string_array(&mut heap, &strings);
    assert_eq!(count, 3);
    let entries = match heap.read(arr) {
        Payload::StrArray(a) => clone_handles(a),
        _ => panic!("expected a handle array payload"),
    };
    assert_eq!(entries.len(), 3);
    for (i, &e) in entries.iter().enumerate() {
        match heap.read(e) {
            Payload::Str(s) => assert_eq!(s, &strings[i]),
            _ => panic!("expected a string payload"),
        }
    }
    let mut handle = arr;
    slurm_free_string_array(&mut heap, &mut handle, count);
    assert_eq!(handle, 0);
    assert!(!heap.is_live(arr));
    for &e in entries.iter() {
        assert!(!heap.is_live(e));
    }
}

#[test]
fn empty_string_array_frees_cleanly() {
    let mut heap = SlurmHeap::new();
    let strings: Vec<String> = Vec::new();
    let (arr, count) = slurm_alloc_utf8_string_array(&mut heap, &strings);
    assert_eq!(count, 0);
    let mut handle = arr;
    slurm_free_string_array(&mut heap, &mut handle, count);
    assert!(!heap.is_live(arr));
}

#[test]
fn null_string_array_free_is_a_no_op() {
    let mut heap = SlurmHeap::new();
    let mut handle = 0usize;
    slurm_free_string_array(&mut heap, &mut handle, 0);
    assert_eq!(handle, 0);
}

#[test]
fn generic_allocation_places_the_payload() {
    let mut heap = SlurmHeap::new();
    let h = slurm_alloc(&mut heap, Payload::Connection);
    assert!(heap.is_live(h));
    match heap.read(h) {
        Payload::Connection => {},
        _ => panic!("expected a connection payload"),
    }
}
