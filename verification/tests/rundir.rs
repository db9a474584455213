use renderdog::decimal::decimal_string;
use renderdog::rundir::{run_dir_for, run_dir_name_string, RunDirAllocator, RunToken};
use std::collections::HashSet;

#[test]
fn decimal_spells_numbers() {
    assert_eq!(decimal_string(0), "0");
    assert_eq!(decimal_string(7), "7");
    assert_eq!(decimal_string(10), "10");
    assert_eq!(decimal_string(1905), "1905");
    assert_eq!(decimal_string(u64::MAX), "18446744073709551615");
    for n in [0u64, 9, 10, 99, 100, 12345, 4294967295, 1_000_000_007] {
        assert_eq!(decimal_string(n), n.to_string());
    }
}

#[test]
fn run_directory_name_has_three_parts() {
    let token = RunToken { process_id: 4242, millis: 1_700_000_000_123, sequence: 7 };
    assert_eq!(run_dir_name_string(token), "4242-1700000000123-7");
}

#[test]
fn run_directory_lies_below_the_operation() {
    let token = RunToken { process_id: 1, millis: 2, sequence: 3 };
    assert_eq!(
        run_dir_for("/work/artifacts/renderdoc/scripts", "get_events", token),
        "/work/artifacts/renderdoc/scripts/get_events/1-2-3"
    );
}

#[test]
fn tokens_that_look_alike_do_not_collide() {
    let a = RunToken { process_id: 1, millis: 23, sequence: 4 };
    let b = RunToken { process_id: 12, millis: 3, sequence: 4 };
    let c = RunToken { process_id: 1, millis: 2, sequence: 34 };
    let names: HashSet<String> =
        [a, b, c].into_iter().map(run_dir_name_string).collect();
    assert_eq!(names.len(), 3);
}

#[test]
fn concurrent_calls_get_distinct_run_directories() {
    let mut allocator = RunDirAllocator::new(77);
    let mut seen = HashSet::new();
    for _ in 0..1000 {
        let dir = allocator
            .allocate_run_dir("/s", "find_events", 1_700_000_000_000)
            .expect("a fresh allocator is not used up");
        assert!(dir.starts_with("/s/find_events/77-1700000000000-"));
        assert!(seen.insert(dir), "a run directory was handed out twice");
    }
    assert_eq!(allocator.next_sequence(), 1000);
}

#[test]
fn two_processes_get_distinct_run_directories() {
    let mut first = RunDirAllocator::new(100);
    let mut second = RunDirAllocator::new(101);
    let a = first.allocate_run_dir("/s", "op", 5).unwrap();
    let b = second.allocate_run_dir("/s", "op", 5).unwrap();
    assert_eq!(a, "/s/op/100-5-0");
    assert_eq!(b, "/s/op/101-5-0");
    assert_ne!(a, b);
}

#[test]
fn allocator_counts_up() {
    let mut allocator = RunDirAllocator::new(9);
    assert_eq!(allocator.allocate_run_dir("/s", "op", 1).as_deref(), Some("/s/op/9-1-0"));
    assert_eq!(allocator.allocate_run_dir("/s", "op", 1).as_deref(), Some("/s/op/9-1-1"));
    assert_eq!(allocator.allocate_run_dir("/s", "other", 2).as_deref(), Some("/s/other/9-2-2"));
    assert_eq!(allocator.process_id(), 9);
}

#[test]
fn used_up_allocator_hands_out_nothing() {
    let mut allocator = RunDirAllocator::starting_at(3, u64::MAX - 1);
    assert_eq!(
        allocator.allocate_run_dir("/s", "op", 0).as_deref(),
        Some("/s/op/3-0-18446744073709551614")
    );
    assert_eq!(allocator.next_sequence(), u64::MAX);
    assert_eq!(allocator.allocate_run_dir("/s", "op", 0), None);
    assert_eq!(allocator.allocate_run_dir("/s", "op", 1), None);
    assert_eq!(allocator.next_sequence(), u64::MAX);
}
