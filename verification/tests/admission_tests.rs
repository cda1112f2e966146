use zone_store::admission::Admission;

#[test]
fn idle_request_is_granted_at_once() {
    let mut adm = Admission::new();
    assert!(!adm.busy());
    assert!(adm.request_write(1));
    assert!(adm.busy());
    assert_eq!(adm.pending_count(), 0);
}

#[test]
fn busy_request_queues_in_order() {
    let mut adm = Admission::new();
    assert!(adm.request_write(1));
    assert!(!adm.request_write(2));
    assert!(!adm.request_write(3));
    assert_eq!(adm.pending_count(), 2);
    assert_eq!(adm.complete_write(true), Some(2));
    assert_eq!(adm.complete_write(true), Some(3));
    assert_eq!(adm.complete_write(true), None);
    assert!(!adm.busy());
}

#[test]
fn failed_write_still_advances_the_queue() {
    let mut adm = Admission::new();
    assert!(adm.request_write(1));
    assert!(!adm.request_write(2));
    // The write fails; the slot is released and the next zone granted anyway.
    assert_eq!(adm.complete_write(false), Some(2));
    assert!(adm.busy());
    assert_eq!(adm.complete_write(false), None);
    assert!(!adm.busy());
}

#[test]
fn repeated_request_is_ignored_while_queued() {
    let mut adm = Admission::new();
    assert!(adm.request_write(1));
    assert!(!adm.request_write(2));
    assert!(!adm.request_write(2));
    assert_eq!(adm.pending_count(), 1);
}

#[test]
fn completion_with_empty_queue_frees_the_slot() {
    let mut adm = Admission::new();
    assert!(adm.request_write(5));
    assert_eq!(adm.complete_write(true), None);
    assert!(!adm.busy());
    // The slot being free again, the next request is granted immediately.
    assert!(adm.request_write(6));
}
