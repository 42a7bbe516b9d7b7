use range_query::wire::{RawKeyValue, RawRangeResponse, RawResponseHeader};
use range_query::{DecodeError, KeyRange, KeyValue, RangeRequest, RangeResponse, ResponseHeader};

fn header() -> RawResponseHeader {
    RawResponseHeader { cluster_id: 7, member_id: 8, revision: 9, raft_term: 10 }
}

fn pair(n: u8) -> RawKeyValue {
    RawKeyValue {
        key: vec![b'k', n],
        value: vec![b'v', n, n],
        create_revision: 100 + n as i64,
        mod_revision: 200 + n as i64,
        version: 1 + n as i64,
    }
}

fn expected_pair(n: u8) -> KeyValue {
    KeyValue {
        key: vec![b'k', n],
        value: vec![b'v', n, n],
        create_revision: 100 + n as i64,
        mod_revision: 200 + n as i64,
        version: 1 + n as i64,
    }
}

#[test]
fn decode_keeps_pairs_and_more_flag_regardless_of_count() {
    let limit: u64 = 3;
    let request = RangeRequest::new(KeyRange::range(b"k".to_vec(), b"l".to_vec()))
        .limit(limit)
        .finalize();
    assert_eq!(request.limit, 3);
    for count in [0i64, 3, 4, 1000, i64::MAX] {
        let raw = RawRangeResponse {
            header: Some(header()),
            kvs: vec![pair(1), pair(2), pair(3)],
            more: true,
            count,
        };
        let r = RangeResponse::decode(raw).unwrap();
        assert!(r.has_more);
        assert_eq!(r.kvs, vec![expected_pair(1), expected_pair(2), expected_pair(3)]);
        assert_eq!(r.count, count as u64);
    }
}

#[test]
fn decode_without_header_is_missing_metadata() {
    let raw = RawRangeResponse { header: None, kvs: vec![pair(1)], more: true, count: 1 };
    match RangeResponse::decode(raw) {
        Err(e) => assert_eq!(e, DecodeError::MissingMetadata),
        Ok(_) => panic!("a reply without a header was accepted"),
    }
    let empty = RawRangeResponse { header: None, kvs: Vec::new(), more: false, count: 0 };
    assert!(matches!(RangeResponse::decode(empty), Err(DecodeError::MissingMetadata)));
}

#[test]
fn decode_carries_the_header_of_the_reply() {
    let raw = RawRangeResponse { header: Some(header()), kvs: Vec::new(), more: false, count: 0 };
    let r = RangeResponse::decode(raw).unwrap();
    assert_eq!(
        r.header,
        ResponseHeader { cluster_id: 7, member_id: 8, revision: 9, raft_term: 10 }
    );
    assert!(r.kvs.is_empty());
    assert!(!r.has_more);
    assert_eq!(r.count, 0);
}

#[test]
fn decode_keeps_the_order_of_pairs() {
    let raw = RawRangeResponse {
        header: Some(header()),
        kvs: vec![pair(9), pair(2), pair(5), pair(2)],
        more: false,
        count: 4,
    };
    let r = RangeResponse::decode(raw).unwrap();
    assert_eq!(r.kvs.len(), 4);
    assert_eq!(r.kvs[0], expected_pair(9));
    assert_eq!(r.kvs[1], expected_pair(2));
    assert_eq!(r.kvs[2], expected_pair(5));
    assert_eq!(r.kvs[3], expected_pair(2));
    assert_eq!(r.kvs[0].key, vec![b'k', 9]);
    assert_eq!(r.kvs[0].value, vec![b'v', 9, 9]);
    assert_eq!(r.kvs[0].create_revision, 109);
    assert_eq!(r.kvs[0].mod_revision, 209);
    assert_eq!(r.kvs[0].version, 10);
}

#[test]
fn decode_count_is_independent_of_pairs() {
    let raw = RawRangeResponse { header: Some(header()), kvs: Vec::new(), more: false, count: 12 };
    let r = RangeResponse::decode(raw).unwrap();
    assert_eq!(r.count, 12);
    assert!(r.kvs.is_empty());
}

#[test]
fn decode_negative_count_keeps_its_bits() {
    let raw = RawRangeResponse { header: Some(header()), kvs: Vec::new(), more: false, count: -1 };
    assert_eq!(RangeResponse::decode(raw).unwrap().count, u64::MAX);
    let raw =
        RawRangeResponse { header: Some(header()), kvs: Vec::new(), more: false, count: i64::MIN };
    assert_eq!(RangeResponse::decode(raw).unwrap().count, 9_223_372_036_854_775_808);
}

#[test]
fn decode_more_flag_false() {
    let raw =
        RawRangeResponse { header: Some(header()), kvs: vec![pair(1)], more: false, count: 1 };
    let r = RangeResponse::decode(raw).unwrap();
    assert!(!r.has_more);
    assert_eq!(r.kvs, vec![expected_pair(1)]);
}

#[test]
fn decode_never_reports_a_malformed_entry() {
    let odd = RawKeyValue {
        key: Vec::new(),
        value: Vec::new(),
        create_revision: -3,
        mod_revision: i64::MIN,
        version: 0,
    };
    let raw = RawRangeResponse {
        header: Some(header()),
        kvs: vec![pair(1), odd.clone()],
        more: false,
        count: 2,
    };
    let r = RangeResponse::decode(raw);
    assert!(!matches!(r, Err(DecodeError::MalformedEntry { .. })));
    let r = r.unwrap();
    assert_eq!(r.kvs[1].key, odd.key);
    assert_eq!(r.kvs[1].create_revision, -3);
    assert_eq!(r.kvs[1].mod_revision, i64::MIN);
    assert_eq!(r.kvs[1].version, 0);
}

#[test]
fn decode_errors_are_distinct_values() {
    assert_ne!(DecodeError::MissingMetadata, DecodeError::MalformedEntry { index: 0 });
    assert_ne!(DecodeError::MalformedEntry { index: 0 }, DecodeError::MalformedEntry { index: 1 });
    assert_eq!(DecodeError::MalformedEntry { index: 2 }, DecodeError::MalformedEntry { index: 2 });
}

#[test]
fn header_decodes_field_for_field() {
    let h = ResponseHeader::decode(RawResponseHeader {
        cluster_id: u64::MAX,
        member_id: 0,
        revision: -4,
        raft_term: 3,
    });
    assert_eq!(h.cluster_id, u64::MAX);
    assert_eq!(h.member_id, 0);
    assert_eq!(h.revision, -4);
    assert_eq!(h.raft_term, 3);
}

#[test]
fn pair_decodes_field_for_field() {
    let kv = KeyValue::decode(pair(4));
    assert_eq!(kv, expected_pair(4));
    assert_eq!(kv.key, vec![b'k', 4]);
    assert_eq!(kv.value, vec![b'v', 4, 4]);
    assert_eq!(kv.create_revision, 104);
    assert_eq!(kv.mod_revision, 204);
    assert_eq!(kv.version, 5);
}

#[test]
fn decoded_result_can_be_cloned() {
    let raw = RawRangeResponse {
        header: Some(header()),
        kvs: vec![pair(1), pair(2)],
        more: true,
        count: 5,
    };
    let r = RangeResponse::decode(raw).unwrap();
    let c = r.clone();
    assert_eq!(c.header, r.header);
    assert_eq!(c.kvs, r.kvs);
    assert_eq!(c.has_more, r.has_more);
    assert_eq!(c.count, 5);
}
