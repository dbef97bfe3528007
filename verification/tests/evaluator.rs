use rustrando::error::TrackerError;
use rustrando::evaluator::{
    evaluate, evaluate_entry, evaluate_location, evaluate_locations, LocationCheckEvent,
};
use rustrando::map_element::MapElementKind;
use rustrando::memory_layout::{MemoryLayoutEntry, MemoryLayoutTable, MemoryRead};
use rustrando::snapshot::Snapshot;

fn snapshot_with(len: usize, bytes: &[(usize, u8)]) -> Snapshot {
    let mut data = vec![0u8; len];
    for (address, value) in bytes {
        data[*address] = *value;
    }
    Snapshot::from_bytes(data)
}

fn table_of(entries: Vec<MemoryLayoutEntry>) -> MemoryLayoutTable {
    MemoryLayoutTable::new(0x412, entries)
}

fn hookshot_table() -> MemoryLayoutTable {
    table_of(vec![MemoryLayoutEntry::new(
        MapElementKind::HOOKSHOT,
        vec![MemoryRead { address: 0x078, mask: 0xF0 }],
    )])
}

fn saha_table() -> MemoryLayoutTable {
    table_of(vec![MemoryLayoutEntry::new(
        MapElementKind::SAHA,
        vec![
            MemoryRead { address: 0x20A, mask: 0x70 },
            MemoryRead { address: 0x410, mask: 0x10 },
        ],
    )])
}

#[test]
fn self_diff_gives_no_event() {
    let table = MemoryLayoutTable::standard();
    let zero = Snapshot::zeroed(0x412);
    assert_eq!(evaluate(&zero, &zero, &table), vec![]);
    let busy = Snapshot::from_bytes(vec![0xFF; 0x412]);
    assert_eq!(evaluate(&busy, &busy, &table), vec![]);
    let some = snapshot_with(0x412, &[(0x078, 0xF0), (0x410, 0x10), (0x411, 0x21)]);
    assert_eq!(evaluate(&some, &some, &table), vec![]);
}

#[test]
fn hookshot_newly_checked() {
    let previous = snapshot_with(0x412, &[(0x078, 0x00)]);
    let current = snapshot_with(0x412, &[(0x078, 0xF0)]);
    let events = evaluate(&previous, &current, &hookshot_table());
    assert_eq!(
        events,
        vec![LocationCheckEvent {
            location_id: MapElementKind::HOOKSHOT,
            previous_checked: false,
            new_checked: true,
            fully_checked: true,
            partially_checked: true,
        }]
    );
}

#[test]
fn hookshot_in_the_standard_table() {
    let previous = Snapshot::zeroed(0x412);
    let current = snapshot_with(0x412, &[(0x078, 0xF0)]);
    let events = evaluate(&previous, &current, &MemoryLayoutTable::standard());
    assert_eq!(events.len(), 1);
    assert_eq!(events[0].location_id, MapElementKind::HOOKSHOT);
    assert!(events[0].fully_checked);
}

#[test]
fn single_read_reaching_its_mask_gives_one_full_event() {
    let table = MemoryLayoutTable::standard();
    let previous = snapshot_with(0x412, &[(0x1F0, 0x10)]);
    let current = snapshot_with(0x412, &[(0x1F0, 0x30)]);
    let events = evaluate(&previous, &current, &table);
    assert_eq!(
        events,
        vec![LocationCheckEvent {
            location_id: MapElementKind::SUPERBUNNYU,
            previous_checked: false,
            new_checked: true,
            fully_checked: true,
            partially_checked: true,
        }]
    );
}

#[test]
fn saha_second_read_only() {
    let previous = Snapshot::zeroed(0x412);
    let current = snapshot_with(0x412, &[(0x410, 0x10)]);
    let events = evaluate(&previous, &current, &saha_table());
    assert_eq!(
        events,
        vec![LocationCheckEvent {
            location_id: MapElementKind::SAHA,
            previous_checked: false,
            new_checked: true,
            fully_checked: false,
            partially_checked: true,
        }]
    );
}

#[test]
fn saha_unchanged_is_suppressed() {
    let previous = snapshot_with(0x412, &[(0x410, 0x10)]);
    let current = snapshot_with(0x412, &[(0x410, 0x10)]);
    assert_eq!(evaluate(&previous, &current, &saha_table()), vec![]);
}

#[test]
fn saha_both_reads() {
    let previous = snapshot_with(0x412, &[(0x410, 0x10)]);
    let current = snapshot_with(0x412, &[(0x20A, 0x70), (0x410, 0x10)]);
    let events = evaluate(&previous, &current, &saha_table());
    assert_eq!(
        events,
        vec![LocationCheckEvent {
            location_id: MapElementKind::SAHA,
            previous_checked: true,
            new_checked: true,
            fully_checked: true,
            partially_checked: true,
        }]
    );
}

#[test]
fn change_that_reaches_no_full_mask_is_suppressed() {
    let previous = snapshot_with(0x412, &[(0x078, 0x00)]);
    let current = snapshot_with(0x412, &[(0x078, 0x30)]);
    assert_eq!(evaluate(&previous, &current, &hookshot_table()), vec![]);
    let back = snapshot_with(0x412, &[(0x078, 0xF0)]);
    assert_eq!(evaluate(&back, &current, &hookshot_table()), vec![]);
}

#[test]
fn bits_outside_the_mask_do_not_count() {
    let previous = snapshot_with(0x412, &[(0x078, 0xF0)]);
    let current = snapshot_with(0x412, &[(0x078, 0xFF)]);
    assert_eq!(evaluate(&previous, &current, &hookshot_table()), vec![]);
}

#[test]
fn evaluation_is_repeatable() {
    let table = MemoryLayoutTable::standard();
    let previous = snapshot_with(0x412, &[(0x411, 0x01)]);
    let current = snapshot_with(0x412, &[(0x078, 0xF0), (0x410, 0xFF), (0x411, 0xFF), (0x20A, 0x70)]);
    let first = evaluate(&previous, &current, &table);
    let second = evaluate(&previous, &current, &table);
    assert_eq!(first, second);
    assert!(!first.is_empty());
}

#[test]
fn events_come_in_table_order() {
    let table = MemoryLayoutTable::standard();
    let previous = Snapshot::zeroed(0x412);
    let current = snapshot_with(0x412, &[(0x410, 0x20), (0x1F0, 0x30), (0x078, 0xF0)]);
    let events = evaluate(&previous, &current, &table);
    let order: Vec<MapElementKind> = events.iter().map(|event| event.location_id).collect();
    assert_eq!(
        order,
        vec![MapElementKind::SUPERBUNNYU, MapElementKind::HOOKSHOT, MapElementKind::CATFISH]
    );
}

#[test]
fn first_pass_against_zero_reports_what_is_set() {
    let table = MemoryLayoutTable::standard();
    let baseline = Snapshot::zeroed(0x412);
    let current = snapshot_with(0x412, &[(0x411, 0x04), (0x3C9, 0x01)]);
    let events = evaluate(&baseline, &current, &table);
    assert_eq!(
        events,
        vec![
            LocationCheckEvent {
                location_id: MapElementKind::SMITH,
                previous_checked: false,
                new_checked: true,
                fully_checked: true,
                partially_checked: true,
            },
            LocationCheckEvent {
                location_id: MapElementKind::HOBO,
                previous_checked: false,
                new_checked: true,
                fully_checked: true,
                partially_checked: true,
            },
        ]
    );
    assert_eq!(evaluate(&current, &current, &table), vec![]);
}

#[test]
fn longer_snapshots_are_accepted() {
    let previous = Snapshot::zeroed(0x500);
    let current = snapshot_with(0x600, &[(0x078, 0xF0)]);
    assert_eq!(evaluate(&previous, &current, &hookshot_table()).len(), 1);
}

#[test]
fn entry_is_evaluated_alone() {
    let entry = MemoryLayoutEntry::new(
        MapElementKind::PARAM,
        vec![MemoryRead { address: 2, mask: 0xF0 }, MemoryRead { address: 3, mask: 0x01 }],
    );
    let previous = Snapshot::from_bytes(vec![0, 0, 0x00, 0x00]);
    let current = Snapshot::from_bytes(vec![0, 0, 0xF0, 0x00]);
    assert_eq!(
        evaluate_entry(&previous, &current, &entry),
        Some(LocationCheckEvent {
            location_id: MapElementKind::PARAM,
            previous_checked: false,
            new_checked: true,
            fully_checked: false,
            partially_checked: true,
        })
    );
    assert_eq!(evaluate_entry(&current, &current, &entry), None);
}

#[test]
fn unknown_location_is_reported() {
    let previous = Snapshot::zeroed(0x412);
    let current = snapshot_with(0x412, &[(0x078, 0xF0)]);
    assert_eq!(
        evaluate_location(&previous, &current, &hookshot_table(), MapElementKind::SAHA),
        Err(TrackerError::UnknownLocation(MapElementKind::SAHA))
    );
    assert_eq!(
        evaluate_location(&previous, &current, &MemoryLayoutTable::standard(), MapElementKind::BLANK),
        Err(TrackerError::UnknownLocation(MapElementKind::BLANK))
    );
}

#[test]
fn known_location_is_evaluated() {
    let previous = Snapshot::zeroed(0x412);
    let current = snapshot_with(0x412, &[(0x078, 0xF0)]);
    let table = MemoryLayoutTable::standard();
    let hookshot = evaluate_location(&previous, &current, &table, MapElementKind::HOOKSHOT);
    assert_eq!(
        hookshot,
        Ok(Some(LocationCheckEvent {
            location_id: MapElementKind::HOOKSHOT,
            previous_checked: false,
            new_checked: true,
            fully_checked: true,
            partially_checked: true,
        }))
    );
    assert_eq!(evaluate_location(&previous, &current, &table, MapElementKind::SAHA), Ok(None));
}

#[test]
fn pass_over_chosen_locations_goes_on_after_an_unknown_one() {
    let previous = Snapshot::zeroed(0x412);
    let current = snapshot_with(0x412, &[(0x078, 0xF0), (0x410, 0x20)]);
    let table = MemoryLayoutTable::standard();
    let report = evaluate_locations(
        &previous,
        &current,
        &table,
        &[
            MapElementKind::CATFISH,
            MapElementKind::BLANK,
            MapElementKind::SAHA,
            MapElementKind::HOOKSHOT,
        ],
    );
    let order: Vec<MapElementKind> = report.events.iter().map(|event| event.location_id).collect();
    assert_eq!(order, vec![MapElementKind::CATFISH, MapElementKind::HOOKSHOT]);
    assert_eq!(report.unknown, vec![MapElementKind::BLANK]);
}

#[test]
fn snapshot_reads_as_zero_beyond_its_end() {
    let table = MemoryLayoutTable::standard();
    let short = Snapshot::from_bytes(vec![0xFF; 0x100]);
    assert_eq!(evaluate(&short, &short, &table), vec![]);
    let previous = Snapshot::zeroed(0);
    let events = evaluate(&previous, &short, &table);
    assert_eq!(
        events,
        vec![LocationCheckEvent {
            location_id: MapElementKind::HOOKSHOT,
            previous_checked: false,
            new_checked: true,
            fully_checked: true,
            partially_checked: true,
        }]
    );
    assert_eq!(evaluate(&short, &previous, &table), vec![]);
}
