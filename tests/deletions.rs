use interchannel_mover::deletion::{progress_line_due, DeleteStep, DeletionPlanner, BATCH_AGE_LIMIT_SECS};

const NOW: u64 = 2_000_000_000;

fn steps(created: Vec<u64>) -> Vec<DeleteStep> {
    let mut p = DeletionPlanner::new(created);
    let mut out = Vec::new();
    loop {
        let s = p.next_step(NOW);
        if s == DeleteStep::Done {
            break;
        }
        out.push(s);
    }
    assert!(p.is_finished());
    out
}

#[test]
fn fresh_messages_go_in_batches() {
    let created = vec![NOW - 10; 250];
    assert_eq!(
        steps(created),
        vec![
            DeleteStep::Batch { start: 0, end: 100 },
            DeleteStep::Batch { start: 100, end: 200 },
            DeleteStep::Batch { start: 200, end: 250 },
        ]
    );
}

#[test]
fn two_fresh_messages_make_one_batch() {
    assert_eq!(steps(vec![NOW - 5, NOW - 1]), vec![DeleteStep::Batch { start: 0, end: 2 }]);
}

#[test]
fn one_message_is_deleted_alone() {
    assert_eq!(steps(vec![NOW - 5]), vec![DeleteStep::OneByOne { start: 0, end: 1 }]);
}

#[test]
fn old_messages_are_deleted_one_by_one() {
    let old = NOW - BATCH_AGE_LIMIT_SECS - 1;
    assert_eq!(
        steps(vec![old, NOW - 5, NOW - 1]),
        vec![DeleteStep::OneByOne { start: 0, end: 1 }, DeleteStep::Batch { start: 1, end: 3 }]
    );
}

#[test]
fn mixed_queue_switches_to_batches_after_the_old_stretch() {
    let old = NOW - BATCH_AGE_LIMIT_SECS - 100;
    let mut created = vec![old, old + 1];
    created.extend(vec![NOW - 10; 150]);
    assert_eq!(
        steps(created),
        vec![
            DeleteStep::OneByOne { start: 0, end: 2 },
            DeleteStep::Batch { start: 2, end: 102 },
            DeleteStep::Batch { start: 102, end: 152 },
        ]
    );
}

#[test]
fn all_old_messages_are_deleted_one_by_one() {
    let old = NOW - BATCH_AGE_LIMIT_SECS - 1;
    assert_eq!(steps(vec![old, old, old]), vec![DeleteStep::OneByOne { start: 0, end: 3 }]);
}

#[test]
fn exactly_fourteen_days_is_too_old_for_a_batch() {
    let edge = NOW - BATCH_AGE_LIMIT_SECS;
    assert_eq!(
        steps(vec![edge, NOW - 2, NOW]),
        vec![DeleteStep::OneByOne { start: 0, end: 1 }, DeleteStep::Batch { start: 1, end: 3 }]
    );
    let younger = NOW - BATCH_AGE_LIMIT_SECS + 1;
    assert_eq!(steps(vec![younger, NOW]), vec![DeleteStep::Batch { start: 0, end: 2 }]);
}

#[test]
fn a_lone_leftover_is_deleted_alone() {
    let created = vec![NOW - 10; 101];
    assert_eq!(
        steps(created),
        vec![DeleteStep::Batch { start: 0, end: 100 }, DeleteStep::OneByOne { start: 100, end: 101 }]
    );
}

#[test]
fn empty_sequence_needs_nothing() {
    assert!(steps(vec![]).is_empty());
}

#[test]
fn progress_lines_every_tenth() {
    assert!(!progress_line_due(0));
    assert!(progress_line_due(9));
    assert!(progress_line_due(19));
    assert!(!progress_line_due(10));
}
