//! Wire-codec behavior: round trips, byte-exact encodings, arity policies
//! and the allocation-size guard.

use stacks_codec::codec::{
    read_next, read_next_at_most, read_next_exact, write_next, MemSource, StacksMessageCodec,
};
use stacks_codec::errors::NetworkError;

#[test]
fn u8_round_trip() {
    for v in [0u8, 1, 0x7f, 0xff] {
        let bytes = v.serialize_to_vec();
        assert_eq!(bytes.len(), 1);
        let mut src = MemSource::new(bytes);
        assert_eq!(u8::consensus_deserialize(&mut src).unwrap(), v);
    }
}

#[test]
fn u16_round_trip() {
    for v in [0u16, 1, 0x1234, u16::MAX] {
        let bytes = v.serialize_to_vec();
        assert_eq!(bytes.len(), 2);
        let mut src = MemSource::new(bytes);
        assert_eq!(u16::consensus_deserialize(&mut src).unwrap(), v);
    }
}

#[test]
fn u32_round_trip_exact_bytes() {
    let v: u32 = 0x12345678;
    let bytes = v.serialize_to_vec();
    assert_eq!(bytes, vec![0x12, 0x34, 0x56, 0x78]);
    let mut src = MemSource::new(bytes);
    assert_eq!(u32::consensus_deserialize(&mut src).unwrap(), 0x12345678);
    for v in [0u32, 1, u32::MAX] {
        let mut src = MemSource::new(v.serialize_to_vec());
        assert_eq!(u32::consensus_deserialize(&mut src).unwrap(), v);
    }
}

#[test]
fn u64_round_trip() {
    for v in [0u64, 1, 0x0123456789abcdef, u64::MAX] {
        let bytes = v.serialize_to_vec();
        assert_eq!(bytes.len(), 8);
        let mut src = MemSource::new(bytes);
        assert_eq!(u64::consensus_deserialize(&mut src).unwrap(), v);
    }
}

#[test]
fn i64_round_trip() {
    for v in [0i64, 1, -1, i64::MAX, i64::MIN, -123456789] {
        let bytes = v.serialize_to_vec();
        assert_eq!(bytes.len(), 8);
        let mut src = MemSource::new(bytes);
        assert_eq!(i64::consensus_deserialize(&mut src).unwrap(), v);
    }
}

#[test]
fn i64_two_complement_bytes() {
    let bytes = (-1i64).serialize_to_vec();
    assert_eq!(bytes, vec![0xff; 8]);
}

#[test]
fn sequence_round_trip_order_preserved() {
    let v: Vec<u8> = vec![1, 2, 3];
    let bytes = v.serialize_to_vec();
    assert_eq!(bytes, vec![0x00, 0x00, 0x00, 0x03, 0x01, 0x02, 0x03]);
    let mut src = MemSource::new(bytes);
    let decoded: Vec<u8> = read_next_at_most(&mut src, 3).unwrap();
    assert_eq!(decoded, vec![1, 2, 3]);
}

#[test]
fn empty_sequence_round_trip() {
    let v: Vec<u8> = vec![];
    let bytes = v.serialize_to_vec();
    assert_eq!(bytes, vec![0x00, 0x00, 0x00, 0x00]);
    let mut src = MemSource::new(bytes);
    let decoded: Vec<u8> = Vec::<u8>::consensus_deserialize(&mut src).unwrap();
    assert!(decoded.is_empty());
}

#[test]
fn exact_count_accepts_matching_length() {
    let bytes = vec![0x00, 0x00, 0x00, 0x03, 0x01, 0x02, 0x03];
    let mut src = MemSource::new(bytes);
    let decoded: Vec<u8> = read_next_exact(&mut src, 3).unwrap();
    assert_eq!(decoded, vec![1, 2, 3]);
}

#[test]
fn exact_count_rejects_wrong_length_before_reading_elements() {
    let bytes = vec![0x00, 0x00, 0x00, 0x03, 0x01, 0x02, 0x03];
    let mut src = MemSource::new(bytes);
    let r: Result<Vec<u8>, NetworkError> = read_next_exact(&mut src, 2);
    match r {
        Err(NetworkError::DeserializeError(msg)) => {
            assert_eq!(msg, "Array has incorrect number of items (3 != 2)");
        }
        other => panic!("expected a deserialize error, got {:?}", other),
    }
    // only the four length bytes were consumed: no element was read
    assert_eq!(src.position(), 4);
}

#[test]
fn at_most_rejects_excess_length() {
    let bytes = vec![0x00, 0x00, 0x00, 0x03, 0x01, 0x02, 0x03];
    let mut src = MemSource::new(bytes);
    let r: Result<Vec<u8>, NetworkError> = read_next_at_most(&mut src, 2);
    match r {
        // the message reproduces the wire format's historical rendering,
        // unbalanced parenthesis included
        Err(NetworkError::DeserializeError(msg)) => {
            assert_eq!(msg, "Array has too many items (3 > 2");
        }
        other => panic!("expected a deserialize error, got {:?}", other),
    }
    assert_eq!(src.position(), 4);
}

#[test]
fn size_guard_rejects_huge_length_immediately() {
    // a hostile length claim of 0xFFFFFFFF two-byte elements, with only a
    // few trailing bytes behind it: the guard must fail at once, without
    // reading elements or allocating for the claim
    let bytes = vec![0xff, 0xff, 0xff, 0xff, 0x01, 0x02];
    let mut src = MemSource::new(bytes);
    let r: Result<Vec<u16>, NetworkError> = read_next_at_most(&mut src, u32::MAX);
    assert!(matches!(r, Err(NetworkError::DeserializeError(_))));
    assert_eq!(src.position(), 4);
}

#[test]
fn size_guard_message_names_the_allocation() {
    let bytes = vec![0xff, 0xff, 0xff, 0xff];
    let mut src = MemSource::new(bytes);
    let r: Result<Vec<u64>, NetworkError> = Vec::<u64>::consensus_deserialize(&mut src);
    match r {
        Err(NetworkError::DeserializeError(msg)) => {
            assert!(msg.contains("Message occupies too many bytes"));
            assert!(msg.contains("4294967295"));
        }
        other => panic!("expected a deserialize error, got {:?}", other),
    }
}

#[test]
fn underflow_is_reported() {
    let mut src = MemSource::new(vec![0x01, 0x02]);
    let r = u32::consensus_deserialize(&mut src);
    assert!(matches!(r, Err(NetworkError::UnderflowError(_))));
}

#[test]
fn element_failure_aborts_sequence_decode() {
    // claims two u32 elements but holds only one and a half
    let bytes = vec![0x00, 0x00, 0x00, 0x02, 0xaa, 0xbb, 0xcc, 0xdd, 0x01, 0x02];
    let mut src = MemSource::new(bytes);
    let r: Result<Vec<u32>, NetworkError> = read_next_exact(&mut src, 2);
    assert!(matches!(r, Err(NetworkError::UnderflowError(_))));
}

#[test]
fn write_next_and_read_next_agree() {
    let mut sink: Vec<u8> = Vec::new();
    write_next(&mut sink, &0xdeadbeefu32).unwrap();
    write_next(&mut sink, &0x7fffu16).unwrap();
    let mut src = MemSource::new(sink);
    let a: u32 = read_next(&mut src).unwrap();
    let b: u16 = read_next(&mut src).unwrap();
    assert_eq!(a, 0xdeadbeef);
    assert_eq!(b, 0x7fff);
}

#[test]
fn nested_sequences_round_trip() {
    let v: Vec<Vec<u8>> = vec![vec![1], vec![], vec![2, 3]];
    let bytes = v.serialize_to_vec();
    let mut src = MemSource::new(bytes);
    let decoded: Vec<Vec<u8>> = Vec::<Vec<u8>>::consensus_deserialize(&mut src).unwrap();
    assert_eq!(decoded, v);
}
