use rustrando::map_element::MapElementKind;
use rustrando::memory_layout::{
    location_at, reads_of, MemoryLayoutEntry, MemoryLayoutTable, MemoryRead, SNAPSHOT_WINDOW,
    TRACKED_LOCATIONS,
};

#[test]
fn standard_table_has_every_location_once() {
    let table = MemoryLayoutTable::standard();
    assert_eq!(table.len(), 55);
    assert_eq!(table.len(), TRACKED_LOCATIONS);
    assert_eq!(table.window(), 0x412);
    assert_eq!(table.window(), SNAPSHOT_WINDOW);
    let entries = table.all_entries();
    for (i, entry) in entries.iter().enumerate() {
        assert_ne!(entry.location_id, MapElementKind::BLANK);
        for other in &entries[i + 1..] {
            assert_ne!(entry.location_id, other.location_id);
        }
    }
}

#[test]
fn standard_entries_are_well_formed() {
    let table = MemoryLayoutTable::standard();
    for entry in table.all_entries() {
        assert!(!entry.reads.is_empty());
        for read in &entry.reads {
            assert_ne!(read.mask, 0);
            assert!(read.address < table.window());
        }
    }
}

#[test]
fn standard_table_is_in_its_fixed_order() {
    let table = MemoryLayoutTable::standard();
    let entries = table.all_entries();
    assert_eq!(entries[0].location_id, MapElementKind::SUPERBUNNYU);
    assert_eq!(entries[5].location_id, MapElementKind::HOOKSHOT);
    assert_eq!(entries[29].location_id, MapElementKind::SAHA);
    assert_eq!(entries[54].location_id, MapElementKind::CATFISH);
    for (i, entry) in entries.iter().enumerate() {
        assert_eq!(entry.location_id, location_at(i));
        assert_eq!(entry.reads, reads_of(entry.location_id));
    }
}

#[test]
fn lookup_finds_hookshot() {
    let table = MemoryLayoutTable::standard();
    let entry = table.lookup(MapElementKind::HOOKSHOT).unwrap();
    assert_eq!(entry.location_id, MapElementKind::HOOKSHOT);
    assert_eq!(entry.reads, vec![MemoryRead { address: 0x078, mask: 0xF0 }]);
}

#[test]
fn lookup_finds_saha() {
    let table = MemoryLayoutTable::standard();
    let entry = table.lookup(MapElementKind::SAHA).unwrap();
    assert_eq!(
        entry.reads,
        vec![MemoryRead { address: 0x20A, mask: 0x70 }, MemoryRead { address: 0x410, mask: 0x10 }]
    );
}

#[test]
fn lookup_of_each_location_gives_its_reads() {
    let table = MemoryLayoutTable::standard();
    let cases = [
        (MapElementKind::SUPERBUNNYU, vec![(0x1F0, 0x30)]),
        (MapElementKind::PARAM, vec![(0x1DE, 0xF0), (0x1DF, 0x01)]),
        (MapElementKind::HYPE, vec![(0x23C, 0xF0), (0x23D, 0x04)]),
        (MapElementKind::MMC, vec![(0x246, 0xF0), (0x247, 0x04)]),
        (MapElementKind::BLINDS, vec![(0x23A, 0xF0), (0x23B, 0x01)]),
        (MapElementKind::LIBRARY, vec![(0x410, 0x80)]),
        (MapElementKind::ETHERTABLET, vec![(0x411, 0x01)]),
        (MapElementKind::PYRAMID, vec![(0x2DB, 0x40)]),
        (MapElementKind::CATFISH, vec![(0x410, 0x20)]),
    ];
    for (kind, reads) in cases {
        let expected: Vec<MemoryRead> =
            reads.iter().map(|(address, mask)| MemoryRead { address: *address, mask: *mask }).collect();
        assert_eq!(table.lookup(kind).unwrap().reads, expected);
    }
}

#[test]
fn lookup_misses_an_unknown_location() {
    let table = MemoryLayoutTable::standard();
    assert!(table.lookup(MapElementKind::BLANK).is_none());
    let small = MemoryLayoutTable::new(
        0x100,
        vec![MemoryLayoutEntry::new(
            MapElementKind::HOOKSHOT,
            vec![MemoryRead { address: 0x078, mask: 0xF0 }],
        )],
    );
    assert!(small.lookup(MapElementKind::SAHA).is_none());
    assert!(small.lookup(MapElementKind::HOOKSHOT).is_some());
    assert_eq!(small.len(), 1);
    assert_eq!(small.window(), 0x100);
}

#[test]
fn blank_has_no_reads() {
    assert_eq!(reads_of(MapElementKind::BLANK), vec![]);
}

#[test]
fn no_location_stands_past_the_end_of_the_table() {
    assert_eq!(location_at(54), MapElementKind::CATFISH);
    assert_eq!(location_at(55), MapElementKind::BLANK);
    assert_eq!(location_at(usize::MAX), MapElementKind::BLANK);
}
