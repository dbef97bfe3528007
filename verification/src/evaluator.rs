//! The location evaluator: what changed between two snapshots, location by
//! location.

use crate::error::TrackerError;
use crate::map_element::MapElementKind;
use crate::memory_layout::{
    entry_views, EntryView, MemoryLayoutEntry, MemoryLayoutTable, MemoryRead, TableView,
};
use crate::snapshot::{byte_of, zeros, Snapshot};
use vstd::prelude::*;

verus! {

/// A change in the check status of one location between two snapshots.
#[derive(Debug, Clone, Copy, PartialEq, Eq, Structural)]
pub struct LocationCheckEvent {
    pub location_id: MapElementKind,
    /// At least one read had its full mask set in the previous snapshot.
    pub previous_checked: bool,
    /// At least one read has its full mask set in the current snapshot.
    pub new_checked: bool,
    /// Every read has its full mask set in the current snapshot.
    pub fully_checked: bool,
    /// At least one read has its full mask set in the current snapshot. It
    /// holds of a fully checked location too: a location is checked in part
    /// only where this holds and `fully_checked` does not.
    pub partially_checked: bool,
}

impl LocationCheckEvent {
    /// The location is checked in part only: at least one read has its
    /// full mask set, and not every one.
    pub open spec fn checked_in_part(self) -> bool {
        self.partially_checked && !self.fully_checked
    }

    /// Whether the location is checked in part only.
    pub fn is_checked_in_part(&self) -> (in_part: bool)
        ensures
            in_part == self.checked_in_part(),
    {
        self.partially_checked && !self.fully_checked
    }
}

/// The bits of `read` in `snapshot`.
pub open spec fn masked(snapshot: Seq<u8>, read: MemoryRead) -> u8 {
    byte_of(snapshot, read.address as int) & read.mask
}

/// All bits of `read` are set in `snapshot`.
pub open spec fn read_full(snapshot: Seq<u8>, read: MemoryRead) -> bool {
    masked(snapshot, read) == read.mask
}

/// At least one of `reads` has its full mask set in `snapshot`.
pub open spec fn any_full(snapshot: Seq<u8>, reads: Seq<MemoryRead>) -> bool {
    exists|i: int| 0 <= i < reads.len() && read_full(snapshot, #[trigger] reads[i])
}

/// Each of `reads` has its full mask set in `snapshot`.
pub open spec fn all_full(snapshot: Seq<u8>, reads: Seq<MemoryRead>) -> bool {
    forall|i: int| 0 <= i < reads.len() ==> read_full(snapshot, #[trigger] reads[i])
}

/// At least one of `reads` has other bits in `current` than in `previous`.
pub open spec fn any_changed(previous: Seq<u8>, current: Seq<u8>, reads: Seq<MemoryRead>) -> bool {
    exists|i: int|
        0 <= i < reads.len() && masked(current, #[trigger] reads[i]) != masked(previous, reads[i])
}

/// The event that an entry gives rise to, if any. A change counts only
/// where it leaves at least one read with its full mask set.
pub open spec fn entry_outcome(
    previous: Seq<u8>,
    current: Seq<u8>,
    entry: EntryView,
) -> Option<LocationCheckEvent> {
    if any_changed(previous, current, entry.reads) && (all_full(current, entry.reads) || any_full(
        current,
        entry.reads,
    )) {
        Some(
            LocationCheckEvent {
                location_id: entry.location_id,
                previous_checked: any_full(previous, entry.reads),
                new_checked: any_full(current, entry.reads),
                fully_checked: all_full(current, entry.reads),
                partially_checked: any_full(current, entry.reads),
            },
        )
    } else {
        None
    }
}

/// `entry_outcome` for a fixed pair of snapshots.
pub open spec fn outcome_fn(previous: Seq<u8>, current: Seq<u8>) -> spec_fn(EntryView) -> Option<
    LocationCheckEvent,
> {
    |entry: EntryView| entry_outcome(previous, current, entry)
}

/// The events of a pass over the whole table: the outcome of each entry
/// that has one, in table order.
pub open spec fn evaluation(previous: Seq<u8>, current: Seq<u8>, table: TableView) -> Seq<
    LocationCheckEvent,
> {
    table.entries.filter_map(outcome_fn(previous, current))
}

/// The outcome of asking about one location: its entry's outcome, or the
/// error that the location is unknown.
pub open spec fn location_outcome(
    previous: Seq<u8>,
    current: Seq<u8>,
    table: TableView,
    location_id: MapElementKind,
) -> Result<Option<LocationCheckEvent>, TrackerError> {
    match table.lookup(location_id) {
        Some(entry) => Ok(entry_outcome(previous, current, entry)),
        None => Err(TrackerError::UnknownLocation(location_id)),
    }
}

/// Evaluates one entry against the two snapshots.
pub fn evaluate_entry(previous: &Snapshot, current: &Snapshot, entry: &MemoryLayoutEntry) -> (outcome:
    Option<LocationCheckEvent>)
    ensures
        outcome == entry_outcome(previous@, current@, entry@),
{
    let mut any_old: bool = false;
    let mut any_new: bool = false;
    let mut all_new: bool = true;
    let mut changed: bool = false;
    let mut i: usize = 0;
    while i < entry.reads.len()
        invariant
            i <= entry.reads.len(),
            any_old <==> exists|j: int| 0 <= j < i && read_full(previous@, #[trigger] entry.reads@[j]),
            any_new <==> exists|j: int| 0 <= j < i && read_full(current@, #[trigger] entry.reads@[j]),
            all_new <==> forall|j: int| 0 <= j < i ==> read_full(current@, #[trigger] entry.reads@[j]),
            changed <==> exists|j: int|
                0 <= j < i && masked(current@, #[trigger] entry.reads@[j]) != masked(
                    previous@,
                    entry.reads@[j],
                ),
        decreases entry.reads.len() - i,
    {
        let read = entry.reads[i];
        let new_bits: u8 = current.read(read.address) & read.mask;
        let old_bits: u8 = previous.read(read.address) & read.mask;
        changed = changed || new_bits != old_bits;
        any_new = any_new || new_bits == read.mask;
        all_new = all_new && new_bits == read.mask;
        any_old = any_old || old_bits == read.mask;
        i = i + 1;
    }
    if changed && (all_new || any_new) {
        Some(
            LocationCheckEvent {
                location_id: entry.location_id,
                previous_checked: any_old,
                new_checked: any_new,
                fully_checked: all_new,
                partially_checked: any_new,
            },
        )
    } else {
        None
    }
}

/// Diffs `current` against `previous` over the whole table and returns the
/// events, in table order.
pub fn evaluate(previous: &Snapshot, current: &Snapshot, table: &MemoryLayoutTable) -> (events: Vec<
    LocationCheckEvent,
>)
    ensures
        events@ == evaluation(previous@, current@, table@),
{
    let entries = table.all_entries();
    let mut events: Vec<LocationCheckEvent> = Vec::new();
    let mut i: usize = 0;
    while i < entries.len()
        invariant
            i <= entries.len(),
            entry_views(entries@) == table@.entries,
            events@ == table@.entries.take(i as int).filter_map(outcome_fn(previous@, current@)),
        decreases entries.len() - i,
    {
        let entry = &entries[i];
        let outcome = evaluate_entry(previous, current, entry);
        proof {
            table@.entries.lemma_filter_map_take_succ(outcome_fn(previous@, current@), i as int);
        }
        match outcome {
            Some(event) => {
                events.push(event);
            },
            None => {},
        }
        i = i + 1;
    }
    assert(table@.entries.take(i as int) =~= table@.entries);
    events
}

/// Evaluates the one location `location_id`. A location that the table
/// lacks is reported as unknown.
pub fn evaluate_location(
    previous: &Snapshot,
    current: &Snapshot,
    table: &MemoryLayoutTable,
    location_id: MapElementKind,
) -> (outcome: Result<Option<LocationCheckEvent>, TrackerError>)
    ensures
        outcome == location_outcome(previous@, current@, table@, location_id),
{
    match table.lookup(location_id) {
        Some(entry) => Ok(evaluate_entry(previous, current, entry)),
        None => Err(TrackerError::UnknownLocation(location_id)),
    }
}

/// What a pass over chosen locations found.
#[derive(Debug, Clone, PartialEq, Eq)]
pub struct EvaluationReport {
    /// The events of the known locations, in the order asked.
    pub events: Vec<LocationCheckEvent>,
    /// The locations that the table lacks, in the order asked.
    pub unknown: Vec<MapElementKind>,
}

/// The event of a location that is known and has one.
pub open spec fn known_outcome_fn(previous: Seq<u8>, current: Seq<u8>, table: TableView) -> spec_fn(
    MapElementKind,
) -> Option<LocationCheckEvent> {
    |location_id: MapElementKind|
        match table.lookup(location_id) {
            Some(entry) => entry_outcome(previous, current, entry),
            None => None,
        }
}

/// A location itself where the table lacks it.
pub open spec fn unknown_fn(table: TableView) -> spec_fn(MapElementKind) -> Option<MapElementKind> {
    |location_id: MapElementKind|
        if table.lookup(location_id) is None {
            Some(location_id)
        } else {
            None
        }
}

/// Evaluates the locations `locations`, one after the other. An unknown
/// location is reported and the pass goes on with the next.
pub fn evaluate_locations(
    previous: &Snapshot,
    current: &Snapshot,
    table: &MemoryLayoutTable,
    locations: &[MapElementKind],
) -> (report: EvaluationReport)
    ensures
        report.events@ == locations@.filter_map(known_outcome_fn(previous@, current@, table@)),
        report.unknown@ == locations@.filter_map(unknown_fn(table@)),
{
    let mut events: Vec<LocationCheckEvent> = Vec::new();
    let mut unknown: Vec<MapElementKind> = Vec::new();
    let mut i: usize = 0;
    while i < locations.len()
        invariant
            i <= locations.len(),
            events@ == locations@.take(i as int).filter_map(
                known_outcome_fn(previous@, current@, table@),
            ),
            unknown@ == locations@.take(i as int).filter_map(unknown_fn(table@)),
        decreases locations.len() - i,
    {
        let location_id = locations[i];
        proof {
            locations@.lemma_filter_map_take_succ(
                known_outcome_fn(previous@, current@, table@),
                i as int,
            );
            locations@.lemma_filter_map_take_succ(unknown_fn(table@), i as int);
        }
        match evaluate_location(previous, current, table, location_id) {
            Ok(Some(event)) => {
                events.push(event);
            },
            Ok(None) => {},
            Err(_) => {
                unknown.push(location_id);
            },
        }
        i = i + 1;
    }
    assert(locations@.take(i as int) =~= locations@);
    EvaluationReport { events, unknown }
}

/// Whether an event is about `location_id`.
pub open spec fn about(location_id: MapElementKind) -> spec_fn(LocationCheckEvent) -> bool {
    |event: LocationCheckEvent| event.location_id == location_id
}

/// The events among `events` that are about `location_id`.
pub open spec fn events_about(events: Seq<LocationCheckEvent>, location_id: MapElementKind) -> Seq<
    LocationCheckEvent,
> {
    events.filter(about(location_id))
}

/// No location has two of the entries.
pub open spec fn distinct_locations(entries: Seq<EntryView>) -> bool {
    forall|i: int, j: int|
        0 <= i < j < entries.len() ==> (#[trigger] entries[i]).location_id != (
        #[trigger] entries[j]).location_id
}

proof fn lemma_unchanged_entries_are_silent(snapshot: Seq<u8>, entries: Seq<EntryView>)
    ensures
        entries.filter_map(outcome_fn(snapshot, snapshot)) =~= Seq::<LocationCheckEvent>::empty(),
    decreases entries.len(),
{
    if entries.len() > 0 {
        lemma_unchanged_entries_are_silent(snapshot, entries.drop_last());
    }
}

/// A snapshot diffed against itself gives no event, whatever the table.
pub proof fn lemma_self_evaluation_is_empty(snapshot: Seq<u8>, table: TableView)
    ensures
        evaluation(snapshot, snapshot, table) == Seq::<LocationCheckEvent>::empty(),
{
    lemma_unchanged_entries_are_silent(snapshot, table.entries);
}

/// Among entries of distinct locations, the events about one location are
/// the outcome of that location's entry and nothing else: one event at
/// most.
pub proof fn lemma_events_about_location(
    previous: Seq<u8>,
    current: Seq<u8>,
    entries: Seq<EntryView>,
    location_id: MapElementKind,
)
    requires
        distinct_locations(entries),
    ensures
        forall|k: int|
            0 <= k < entries.len() && (#[trigger] entries[k]).location_id == location_id
                ==> events_about(entries.filter_map(outcome_fn(previous, current)), location_id)
                =~= (match entry_outcome(previous, current, entries[k]) {
                Some(event) => seq![event],
                None => Seq::empty(),
            }),
        (forall|k: int| 0 <= k < entries.len() ==> (#[trigger] entries[k]).location_id != location_id)
            ==> events_about(entries.filter_map(outcome_fn(previous, current)), location_id)
            =~= Seq::<LocationCheckEvent>::empty(),
    decreases entries.len(),
{
    let f = outcome_fn(previous, current);
    let p = about(location_id);
    if entries.len() == 0 {
        reveal(Seq::filter);
    } else {
        let rest = entries.drop_last();
        let last = entries.last();
        lemma_events_about_location(previous, current, rest, location_id);
        let rest_events = rest.filter_map(f);
        assert forall|k: int| 0 <= k < rest.len() implies (#[trigger] rest[k]) == entries[k] by {}
        match f(last) {
            Some(event) => {
                assert(entries.filter_map(f) =~= rest_events.push(event));
                rest_events.lemma_filter_push(event, p);
            },
            None => {},
        }
        assert forall|k: int|
            0 <= k < entries.len() && (#[trigger] entries[k]).location_id
                == location_id implies events_about(entries.filter_map(f), location_id) =~= (
        match entry_outcome(previous, current, entries[k]) {
            Some(event) => seq![event],
            None => Seq::empty(),
        }) by {
            if k < rest.len() {
                assert(rest[k] == entries[k]);
            }
        }
    }
}

/// An entry with a single read whose mask is full in the current snapshot
/// and was not in the previous one gives exactly one event, and that event
/// says fully checked.
pub proof fn lemma_single_read_newly_full(
    previous: Seq<u8>,
    current: Seq<u8>,
    table: TableView,
    i: int,
)
    requires
        table.well_formed(),
        0 <= i < table.entries.len(),
        table.entries[i].reads.len() == 1,
        read_full(current, table.entries[i].reads[0]),
        !read_full(previous, table.entries[i].reads[0]),
    ensures
        entry_outcome(previous, current, table.entries[i]) is Some,
        entry_outcome(previous, current, table.entries[i])->0.fully_checked,
        entry_outcome(previous, current, table.entries[i])->0.new_checked,
        !entry_outcome(previous, current, table.entries[i])->0.previous_checked,
        events_about(evaluation(previous, current, table), table.entries[i].location_id) == seq![
            entry_outcome(previous, current, table.entries[i])->0,
        ],
{
    lemma_events_about_location(previous, current, table.entries, table.entries[i].location_id);
}

/// No bit is set in a zero byte.
proof fn lemma_zero_has_no_bits(mask: u8)
    ensures
        0u8 & mask == 0u8,
{
    assert(0u8 & mask == 0u8) by (bit_vector);
}

/// The first pass of a connection is a diff against zero bytes: a location
/// of which at least one read has its full mask set in the snapshot is
/// reported, as newly checked, exactly once.
pub proof fn lemma_first_pass_reports_checked(current: Seq<u8>, table: TableView, i: int)
    requires
        table.well_formed(),
        0 <= i < table.entries.len(),
        any_full(current, table.entries[i].reads),
    ensures
        entry_outcome(zeros(current.len()), current, table.entries[i]) is Some,
        entry_outcome(zeros(current.len()), current, table.entries[i])->0.new_checked,
        !entry_outcome(zeros(current.len()), current, table.entries[i])->0.previous_checked,
        events_about(
            evaluation(zeros(current.len()), current, table),
            table.entries[i].location_id,
        ) == seq![entry_outcome(zeros(current.len()), current, table.entries[i])->0],
{
    let baseline = zeros(current.len());
    let entry = table.entries[i];
    assert forall|j: int| 0 <= j < entry.reads.len() implies masked(baseline, #[trigger] entry.reads[j])
        == 0u8 && !read_full(baseline, entry.reads[j]) by {
        lemma_zero_has_no_bits(entry.reads[j].mask);
    }
    lemma_events_about_location(baseline, current, table.entries, entry.location_id);
}

/// Evaluation is repeatable: two passes over the same pair of snapshots
/// and the same table report the same events in the same order.
pub proof fn lemma_evaluation_is_repeatable(
    previous: Seq<u8>,
    current: Seq<u8>,
    table: TableView,
    first: Seq<LocationCheckEvent>,
    second: Seq<LocationCheckEvent>,
)
    requires
        first == evaluation(previous, current, table),
        second == evaluation(previous, current, table),
    ensures
        first == second,
{
}

} // verus!
