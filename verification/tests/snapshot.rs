use rustrando::error::ProtocolViolation;
use rustrando::snapshot::{Snapshot, SnapshotAssembler};

#[test]
fn zeroed_snapshot_is_all_zero() {
    let snapshot = Snapshot::zeroed(5);
    assert_eq!(snapshot.len(), 5);
    assert_eq!(snapshot.as_bytes(), &vec![0u8; 5]);
    assert_eq!(Snapshot::zeroed(0).len(), 0);
}

#[test]
fn snapshot_is_addressed_by_index() {
    let snapshot = Snapshot::from_bytes(vec![10, 20, 30]);
    assert_eq!(snapshot.byte_at(0), Some(10));
    assert_eq!(snapshot.byte_at(2), Some(30));
    assert_eq!(snapshot.byte_at(3), None);
    assert_eq!(snapshot.byte_at(u32::MAX), None);
}

#[test]
fn assembler_round_trip() {
    let mut first = vec![0u8; 0x400];
    first[0] = 0xAA;
    first[0x078] = 0xF0;
    first[0x3FF] = 0xBB;
    let second = vec![0x12u8, 0x34];
    let mut assembler = SnapshotAssembler::new(0x410);
    assembler.begin(0x412);
    assert!(!assembler.is_complete());
    assert_eq!(assembler.append(&first), Ok(()));
    assert!(!assembler.is_complete());
    assert_eq!(assembler.append(&second), Ok(()));
    assert!(assembler.is_complete());
    let snapshot = assembler.take().unwrap();
    assert_eq!(snapshot.len(), 0x412);
    assert_eq!(&snapshot.as_bytes()[..0x400], &first[..]);
    assert_eq!(&snapshot.as_bytes()[0x400..0x410], &[0u8; 0x10][..]);
    assert_eq!(&snapshot.as_bytes()[0x410..], &second[..]);
}

#[test]
fn short_first_chunk_is_padded_to_the_boundary() {
    let mut assembler = SnapshotAssembler::new(4);
    assembler.begin(6);
    assert_eq!(assembler.append(&[7, 8]), Ok(()));
    assert!(!assembler.is_complete());
    assert_eq!(assembler.append(&[9, 10]), Ok(()));
    let snapshot = assembler.take().unwrap();
    assert_eq!(snapshot.as_bytes(), &vec![7, 8, 0, 0, 9, 10]);
}

#[test]
fn long_first_chunk_is_not_padded() {
    let mut assembler = SnapshotAssembler::new(2);
    assembler.begin(5);
    assert_eq!(assembler.append(&[1, 2, 3]), Ok(()));
    assert_eq!(assembler.append(&[4]), Ok(()));
    assert!(!assembler.is_complete());
    assert_eq!(assembler.append(&[5, 6]), Ok(()));
    assert!(assembler.is_complete());
    assert_eq!(assembler.take().unwrap().as_bytes(), &vec![1, 2, 3, 4, 5, 6]);
}

#[test]
fn padding_alone_may_complete_a_snapshot() {
    let mut assembler = SnapshotAssembler::new(8);
    assembler.begin(4);
    assert_eq!(assembler.append(&[1]), Ok(()));
    assert!(assembler.is_complete());
    assert_eq!(assembler.take().unwrap().as_bytes(), &vec![1, 0, 0, 0, 0, 0, 0, 0]);
}

#[test]
fn empty_snapshot_is_complete_at_once() {
    let mut assembler = SnapshotAssembler::new(0);
    assembler.begin(0);
    assert!(assembler.is_complete());
    assert_eq!(assembler.append(&[1]), Err(ProtocolViolation::AppendAfterComplete));
    assert_eq!(assembler.take().unwrap().len(), 0);
}

#[test]
fn append_before_begin_is_refused() {
    let mut assembler = SnapshotAssembler::new(0x410);
    assert!(!assembler.is_complete());
    assert_eq!(assembler.append(&[1, 2, 3]), Err(ProtocolViolation::AppendBeforeBegin));
    assert_eq!(assembler.take(), Err(ProtocolViolation::TakeBeforeComplete));
}

#[test]
fn append_after_completion_is_refused() {
    let mut assembler = SnapshotAssembler::new(2);
    assembler.begin(3);
    assert_eq!(assembler.append(&[1, 2]), Ok(()));
    assert_eq!(assembler.append(&[3]), Ok(()));
    assert_eq!(assembler.append(&[4]), Err(ProtocolViolation::AppendAfterComplete));
    assert_eq!(assembler.take().unwrap().as_bytes(), &vec![1, 2, 3]);
}

#[test]
fn take_before_completion_is_refused_and_keeps_the_bytes() {
    let mut assembler = SnapshotAssembler::new(2);
    assembler.begin(4);
    assert_eq!(assembler.append(&[1, 2]), Ok(()));
    assert_eq!(assembler.take(), Err(ProtocolViolation::TakeBeforeComplete));
    assert_eq!(assembler.append(&[3, 4]), Ok(()));
    assert_eq!(assembler.take().unwrap().as_bytes(), &vec![1, 2, 3, 4]);
}

#[test]
fn take_returns_the_assembler_to_rest() {
    let mut assembler = SnapshotAssembler::new(1);
    assembler.begin(1);
    assert_eq!(assembler.append(&[1]), Ok(()));
    assert!(assembler.take().is_ok());
    assert!(!assembler.is_complete());
    assert_eq!(assembler.append(&[2]), Err(ProtocolViolation::AppendBeforeBegin));
    assert_eq!(assembler.take(), Err(ProtocolViolation::TakeBeforeComplete));
}

#[test]
fn begin_drops_a_partial_snapshot() {
    let mut assembler = SnapshotAssembler::new(2);
    assembler.begin(4);
    assert_eq!(assembler.append(&[9, 9, 9]), Ok(()));
    assembler.begin(4);
    assert_eq!(assembler.append(&[1]), Ok(()));
    assert_eq!(assembler.append(&[2, 3]), Ok(()));
    assert_eq!(assembler.take().unwrap().as_bytes(), &vec![1, 0, 2, 3]);
}

#[test]
fn clear_drops_a_partial_snapshot() {
    let mut assembler = SnapshotAssembler::new(2);
    assembler.begin(4);
    assert_eq!(assembler.append(&[9, 9, 9]), Ok(()));
    assembler.clear();
    assert!(!assembler.is_complete());
    assert_eq!(assembler.append(&[1]), Err(ProtocolViolation::AppendBeforeBegin));
}

#[test]
fn read_is_zero_beyond_the_end() {
    let snapshot = Snapshot::from_bytes(vec![10, 20, 30]);
    assert_eq!(snapshot.read(0), 10);
    assert_eq!(snapshot.read(2), 30);
    assert_eq!(snapshot.read(3), 0);
    assert_eq!(snapshot.read(u32::MAX), 0);
}
