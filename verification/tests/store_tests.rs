use zone_store::codec::{encode, ZoneData};
use zone_store::error::StoreError;
use zone_store::key::Key;
use zone_store::store::{Notice, Store, StoreCall};

fn key(name: &str) -> Key {
    Key::new(name.as_bytes().to_vec())
}

fn snapshot(payload: &[u8]) -> ZoneData {
    ZoneData::new(payload.to_vec())
}

#[test]
fn write_then_list_yields_the_key() {
    let mut store = Store::new();
    let snap = snapshot(b"alpha");
    let notices = store.process(StoreCall::Write(1, key("r/1"), encode(&snap)));
    assert_eq!(notices[0], Notice::WriteResult(1, Ok(())));
    let listed = store.process(StoreCall::List);
    assert!(listed.contains(&Notice::KeyListed(key("r/1"))));
}

#[test]
fn write_then_load_returns_the_snapshot() {
    let mut store = Store::new();
    let snap = snapshot(b"alpha");
    store.process(StoreCall::Write(1, key("r/1"), encode(&snap)));
    let notices = store.process(StoreCall::LoadData(key("r/1")));
    assert_eq!(notices, vec![Notice::DataReply(Ok(Some(snap)))]);
}

#[test]
fn absent_key_is_absent_not_a_failure() {
    let mut store = Store::new();
    let notices = store.process(StoreCall::LoadData(key("r/2")));
    assert_eq!(notices, vec![Notice::DataReply(Ok(None))]);
}

#[test]
fn scenario_write_list_load() {
    let mut store = Store::new();
    let snap1 = snapshot(b"first");
    store.process(StoreCall::Write(1, key("r/1"), encode(&snap1)));
    let listed = store.process(StoreCall::List);
    assert!(listed.contains(&Notice::KeyListed(key("r/1"))));
    let loaded = store.process(StoreCall::LoadData(key("r/1")));
    assert_eq!(loaded, vec![Notice::DataReply(Ok(Some(snap1)))]);
    let missing = store.process(StoreCall::LoadData(key("r/2")));
    assert_eq!(missing, vec![Notice::DataReply(Ok(None))]);
}

#[test]
fn load_notifies_the_owning_zone() {
    let mut store = Store::new();
    let snap = snapshot(b"zone state");
    store.process(StoreCall::Write(4, key("r/4"), encode(&snap)));
    let notices = store.process(StoreCall::Load(4, key("r/4")));
    assert_eq!(notices, vec![Notice::Loaded(4, snap)]);
}

#[test]
fn load_of_absent_key_notifies_failure() {
    let mut store = Store::new();
    let notices = store.process(StoreCall::Load(4, key("r/4")));
    assert_eq!(notices.len(), 1);
    match &notices[0] {
        Notice::LoadFailed(zone, StoreError::ReadError(_)) => assert_eq!(*zone, 4),
        other => panic!("expected a load failure, got {:?}", other),
    }
}

#[test]
fn corrupt_bytes_surface_as_read_failure() {
    let mut store = Store::new();
    // Raw bytes that are not a well-framed encoding.
    store.process(StoreCall::Write(1, key("r/1"), vec![42, 42, 42]));
    let notices = store.process(StoreCall::LoadData(key("r/1")));
    assert_eq!(notices.len(), 1);
    match &notices[0] {
        Notice::DataReply(Err(StoreError::ReadError(_))) => {}
        other => panic!("expected a read failure, got {:?}", other),
    }
}

#[test]
fn overwrite_yields_the_latest_snapshot() {
    let mut store = Store::new();
    let first = snapshot(b"first");
    let second = snapshot(b"second");
    store.process(StoreCall::Write(1, key("r/1"), encode(&first)));
    store.process(StoreCall::Write(1, key("r/1"), encode(&second)));
    let notices = store.process(StoreCall::LoadData(key("r/1")));
    assert_eq!(notices, vec![Notice::DataReply(Ok(Some(second)))]);
    let listed = store.process(StoreCall::List);
    assert_eq!(listed.len(), 1);
}

#[test]
fn list_of_fresh_store_is_empty() {
    let mut store = Store::new();
    assert_eq!(store.process(StoreCall::List), Vec::new());
}

#[test]
fn mutual_exclusion_of_write_grants() {
    let mut store = Store::new();
    let granted_a = store.process(StoreCall::RequestWrite(1));
    let granted_b = store.process(StoreCall::RequestWrite(2));
    // Exactly one zone is granted immediately; the other waits.
    assert_eq!(granted_a, vec![Notice::WritePermitted(1)]);
    assert_eq!(granted_b, Vec::new());
    // The waiting zone is granted only once the first write completes.
    let snap = snapshot(b"a");
    let after_write = store.process(StoreCall::Write(1, key("r/1"), encode(&snap)));
    assert_eq!(
        after_write,
        vec![Notice::WriteResult(1, Ok(())), Notice::WritePermitted(2)]
    );
}

#[test]
fn scenario_grant_handoff() {
    let mut store = Store::new();
    let a = store.process(StoreCall::RequestWrite(10));
    assert_eq!(a, vec![Notice::WritePermitted(10)]);
    let b = store.process(StoreCall::RequestWrite(20));
    assert_eq!(b, Vec::new());
    let done = store.process(StoreCall::Write(10, key("r/a"), encode(&snapshot(b"x"))));
    assert_eq!(done, vec![Notice::WriteResult(10, Ok(())), Notice::WritePermitted(20)]);
    let done2 = store.process(StoreCall::Write(20, key("r/b"), encode(&snapshot(b"y"))));
    assert_eq!(done2, vec![Notice::WriteResult(20, Ok(()))]);
}

#[test]
fn fifo_order_among_queued_zones() {
    let mut store = Store::new();
    store.process(StoreCall::RequestWrite(1));
    store.process(StoreCall::RequestWrite(2));
    store.process(StoreCall::RequestWrite(3));
    let first = store.process(StoreCall::Write(1, key("k1"), encode(&snapshot(b"1"))));
    assert_eq!(first[1], Notice::WritePermitted(2));
    let second = store.process(StoreCall::Write(2, key("k2"), encode(&snapshot(b"2"))));
    assert_eq!(second[1], Notice::WritePermitted(3));
    let third = store.process(StoreCall::Write(3, key("k3"), encode(&snapshot(b"3"))));
    assert_eq!(third, vec![Notice::WriteResult(3, Ok(()))]);
}

#[test]
fn repeated_request_queues_once() {
    let mut store = Store::new();
    store.process(StoreCall::RequestWrite(1));
    assert_eq!(store.process(StoreCall::RequestWrite(2)), Vec::new());
    assert_eq!(store.process(StoreCall::RequestWrite(2)), Vec::new());
    let first = store.process(StoreCall::Write(1, key("k"), encode(&snapshot(b"v"))));
    assert_eq!(first[1], Notice::WritePermitted(2));
    // Zone 2 was queued once: its write grants nobody else.
    let second = store.process(StoreCall::Write(2, key("k"), encode(&snapshot(b"w"))));
    assert_eq!(second, vec![Notice::WriteResult(2, Ok(()))]);
}

#[test]
fn error_descriptions_expose_the_cause() {
    assert_eq!(StoreError::ReadError(String::from("disk gone")).description(), "disk gone");
    assert_eq!(StoreError::WriteError(String::from("full")).description(), "full");
    assert_eq!(StoreError::OtherError(String::from("listing broke")).description(), "listing broke");
}
