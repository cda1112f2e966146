use zone_store::codec::{decode, encode, ZoneData};

#[test]
fn round_trip_small_payload() {
    let snapshot = ZoneData::new(vec![1, 2, 3]);
    let bytes = encode(&snapshot);
    let back = decode(&bytes).expect("a fresh encoding must decode");
    assert_eq!(back, snapshot);
    assert_eq!(back.payload().as_slice(), &[1, 2, 3]);
}

#[test]
fn round_trip_empty_payload() {
    let snapshot = ZoneData::new(Vec::new());
    let bytes = encode(&snapshot);
    let back = decode(&bytes).expect("a fresh encoding must decode");
    assert_eq!(back, snapshot);
    assert!(back.payload().is_empty());
}

#[test]
fn encoding_is_length_prefix_then_payload() {
    let snapshot = ZoneData::new(vec![9]);
    let bytes = encode(&snapshot);
    assert_eq!(bytes, vec![1, 0, 0, 0, 0, 0, 0, 0, 9]);
}

#[test]
fn decode_rejects_truncated_input() {
    assert_eq!(decode(&vec![1, 2, 3]), None);
    assert_eq!(decode(&Vec::new()), None);
}

#[test]
fn decode_rejects_wrong_length_prefix() {
    // The prefix claims five payload bytes; only two follow.
    let bytes = vec![5, 0, 0, 0, 0, 0, 0, 0, 1, 2];
    assert_eq!(decode(&bytes), None);
}

#[test]
fn decode_rejects_trailing_garbage() {
    // The prefix claims one payload byte; two follow.
    let bytes = vec![1, 0, 0, 0, 0, 0, 0, 0, 7, 8];
    assert_eq!(decode(&bytes), None);
}
