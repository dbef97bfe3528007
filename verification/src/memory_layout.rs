//! The memory layout table: which bits of which snapshot bytes tell that a
//! location has been checked.
//!
//! The table is pure data. It is built once and only read afterwards.

use crate::map_element::MapElementKind;
use vstd::prelude::*;

verus! {

/// Length in bytes of the snapshot window that the standard table addresses.
pub const SNAPSHOT_WINDOW: u32 = 0x412;

/// Number of locations in the standard table.
pub const TRACKED_LOCATIONS: usize = 55;

/// One bitmask entry: the bits `mask` of the snapshot byte at `address`.
#[derive(Debug, Clone, Copy, PartialEq, Eq, Structural)]
pub struct MemoryRead {
    pub address: u32,
    pub mask: u8,
}

/// The reads that decide the check status of one location.
#[derive(Debug, Clone)]
pub struct MemoryLayoutEntry {
    pub location_id: MapElementKind,
    pub reads: Vec<MemoryRead>,
}

/// Mathematical model of a [`MemoryLayoutEntry`].
pub struct EntryView {
    pub location_id: MapElementKind,
    pub reads: Seq<MemoryRead>,
}

impl EntryView {
    /// There is at least one read, and no read has an empty mask.
    pub open spec fn well_formed(self) -> bool {
        &&& self.reads.len() > 0
        &&& forall|i: int| 0 <= i < self.reads.len() ==> (#[trigger] self.reads[i]).mask != 0
    }

    /// Every address lies below `window`.
    pub open spec fn within(self, window: nat) -> bool {
        forall|i: int| 0 <= i < self.reads.len() ==> ((#[trigger] self.reads[i]).address as nat) < window
    }
}

impl View for MemoryLayoutEntry {
    type V = EntryView;

    open spec fn view(&self) -> EntryView {
        EntryView { location_id: self.location_id, reads: self.reads@ }
    }
}

impl MemoryLayoutEntry {
    /// An entry for `location_id` with the given reads.
    pub fn new(location_id: MapElementKind, reads: Vec<MemoryRead>) -> (entry: Self)
        ensures
            entry@ == (EntryView { location_id, reads: reads@ }),
    {
        MemoryLayoutEntry { location_id, reads }
    }
}

/// Mathematical model of a [`MemoryLayoutTable`]: the snapshot window and the
/// entries in table order.
pub struct TableView {
    pub window: nat,
    pub entries: Seq<EntryView>,
}

impl TableView {
    /// Every entry is well formed and addresses only the window, and no
    /// location has two entries.
    pub open spec fn well_formed(self) -> bool {
        &&& forall|i: int|
            0 <= i < self.entries.len() ==> (#[trigger] self.entries[i]).well_formed()
                && self.entries[i].within(self.window)
        &&& forall|i: int, j: int|
            0 <= i < j < self.entries.len() ==> (#[trigger] self.entries[i]).location_id != (
            #[trigger] self.entries[j]).location_id
    }

    /// The table has an entry for `location_id`.
    pub open spec fn knows(self, location_id: MapElementKind) -> bool {
        exists|i: int|
            0 <= i < self.entries.len() && (#[trigger] self.entries[i]).location_id == location_id
    }

    /// Position `i` holds the first entry for `location_id`.
    pub open spec fn is_first_match(self, i: int, location_id: MapElementKind) -> bool {
        &&& 0 <= i < self.entries.len()
        &&& self.entries[i].location_id == location_id
        &&& forall|j: int| 0 <= j < i ==> (#[trigger] self.entries[j]).location_id != location_id
    }

    /// The entry that a lookup of `location_id` finds: the first one for
    /// that location, or `None` where the location is unknown. In a well
    /// formed table a location has at most one entry.
    pub open spec fn lookup(self, location_id: MapElementKind) -> Option<EntryView> {
        if exists|i: int| self.is_first_match(i, location_id) {
            Some(self.entries[choose|i: int| self.is_first_match(i, location_id)])
        } else {
            None
        }
    }
}

/// Model of a vector of entries: the model of each, in order.
pub open spec fn entry_views(entries: Seq<MemoryLayoutEntry>) -> Seq<EntryView> {
    Seq::new(entries.len(), |i: int| entries[i]@)
}

/// The mapping from locations to their reads.
pub struct MemoryLayoutTable {
    window: u32,
    entries: Vec<MemoryLayoutEntry>,
}

impl View for MemoryLayoutTable {
    type V = TableView;

    closed spec fn view(&self) -> TableView {
        TableView { window: self.window as nat, entries: entry_views(self.entries@) }
    }
}

/// The location at position `i` of the standard table; `BLANK` outside
/// it.
pub open spec fn tracked_location(i: int) -> MapElementKind {
    if i == 0 {
        MapElementKind::SUPERBUNNYU
    } else if i == 1 {
        MapElementKind::SPIRALU
    } else if i == 2 {
        MapElementKind::SPECM
    } else if i == 3 {
        MapElementKind::PARAM
    } else if i == 4 {
        MapElementKind::PARAL
    } else if i == 5 {
        MapElementKind::HOOKSHOT
    } else if i == 6 {
        MapElementKind::HYPE
    } else if i == 7 {
        MapElementKind::MIRESHED
    } else if i == 8 {
        MapElementKind::LIBRARY
    } else if i == 9 {
        MapElementKind::SICKKID
    } else if i == 10 {
        MapElementKind::AGINAH
    } else if i == 11 {
        MapElementKind::DAM
    } else if i == 12 {
        MapElementKind::ICEROD
    } else if i == 13 {
        MapElementKind::HAMMERPEGS
    } else if i == 14 {
        MapElementKind::MMC
    } else if i == 15 {
        MapElementKind::WATERFALL
    } else if i == 16 {
        MapElementKind::PFAIRY
    } else if i == 17 {
        MapElementKind::MIMIC
    } else if i == 18 {
        MapElementKind::CHESTGAME
    } else if i == 19 {
        MapElementKind::CHICKEN
    } else if i == 20 {
        MapElementKind::BONK
    } else if i == 21 {
        MapElementKind::BREWERY
    } else if i == 22 {
        MapElementKind::CHECKERBOARD
    } else if i == 23 {
        MapElementKind::BLINDS
    } else if i == 24 {
        MapElementKind::SPIKE
    } else if i == 25 {
        MapElementKind::CAVE45
    } else if i == 26 {
        MapElementKind::GYL
    } else if i == 27 {
        MapElementKind::CHOUSE
    } else if i == 28 {
        MapElementKind::KINGSTOMB
    } else if i == 29 {
        MapElementKind::SAHA
    } else if i == 30 {
        MapElementKind::POTION
    } else if i == 31 {
        MapElementKind::SMITH
    } else if i == 32 {
        MapElementKind::POWDER
    } else if i == 33 {
        MapElementKind::BOMBOSTABLET
    } else if i == 34 {
        MapElementKind::ETHERTABLET
    } else if i == 35 {
        MapElementKind::BOTTLEMERCHANT
    } else if i == 36 {
        MapElementKind::DESERTLEDGE
    } else if i == 37 {
        MapElementKind::FLOATINGISLAND
    } else if i == 38 {
        MapElementKind::HOBO
    } else if i == 39 {
        MapElementKind::KINGZORA
    } else if i == 40 {
        MapElementKind::ZORALEDGE
    } else if i == 41 {
        MapElementKind::LAKEHYLIAISLAND
    } else if i == 42 {
        MapElementKind::PED
    } else if i == 43 {
        MapElementKind::MUSHROOM
    } else if i == 44 {
        MapElementKind::OLDMAN
    } else if i == 45 {
        MapElementKind::SPECROCK
    } else if i == 46 {
        MapElementKind::SUNKENTREASURE
    } else if i == 47 {
        MapElementKind::BUMPERCAVELEDGE
    } else if i == 48 {
        MapElementKind::MAZERACE
    } else if i == 49 {
        MapElementKind::DIGGAME
    } else if i == 50 {
        MapElementKind::STUMPY
    } else if i == 51 {
        MapElementKind::FLUTESPOT
    } else if i == 52 {
        MapElementKind::PURPLECHEST
    } else if i == 53 {
        MapElementKind::PYRAMID
    } else if i == 54 {
        MapElementKind::CATFISH
    } else {
        MapElementKind::BLANK
    }
}

/// A sequence of one read.
pub open spec fn one_read(address: u32, mask: u8) -> Seq<MemoryRead> {
    seq![MemoryRead { address, mask }]
}

/// A sequence of two reads.
pub open spec fn two_reads(a0: u32, m0: u8, a1: u32, m1: u8) -> Seq<MemoryRead> {
    seq![MemoryRead { address: a0, mask: m0 }, MemoryRead { address: a1, mask: m1 }]
}

/// The reads of each location in save memory. `BLANK` is no location and has
/// none.
pub open spec fn sram_reads(kind: MapElementKind) -> Seq<MemoryRead> {
    match kind {
        MapElementKind::BLANK => Seq::empty(),
        MapElementKind::SUPERBUNNYU => one_read(0x1F0, 0x30),
        MapElementKind::SPIRALU => one_read(0x1FC, 0x10),
        MapElementKind::SPECM => one_read(0x1D5, 0x04),
        MapElementKind::PARAM => two_reads(0x1DE, 0xF0, 0x1DF, 0x01),
        MapElementKind::PARAL => one_read(0x1FE, 0x30),
        MapElementKind::HOOKSHOT => one_read(0x078, 0xF0),
        MapElementKind::HYPE => two_reads(0x23C, 0xF0, 0x23D, 0x04),
        MapElementKind::MIRESHED => one_read(0x21A, 0x30),
        MapElementKind::LIBRARY => one_read(0x410, 0x80),
        MapElementKind::SICKKID => one_read(0x410, 0x04),
        MapElementKind::AGINAH => one_read(0x214, 0x10),
        MapElementKind::DAM => one_read(0x216, 0x10),
        MapElementKind::ICEROD => one_read(0x240, 0x10),
        MapElementKind::HAMMERPEGS => one_read(0x24F, 0x04),
        MapElementKind::MMC => two_reads(0x246, 0xF0, 0x247, 0x04),
        MapElementKind::WATERFALL => one_read(0x228, 0x30),
        MapElementKind::PFAIRY => one_read(0x22C, 0x30),
        MapElementKind::MIMIC => one_read(0x218, 0x10),
        MapElementKind::CHESTGAME => one_read(0x20D, 0x04),
        MapElementKind::CHICKEN => one_read(0x210, 0x10),
        MapElementKind::BONK => one_read(0x248, 0x10),
        MapElementKind::BREWERY => one_read(0x20C, 0x10),
        MapElementKind::CHECKERBOARD => one_read(0x24D, 0x02),
        MapElementKind::BLINDS => two_reads(0x23A, 0xF0, 0x23B, 0x01),
        MapElementKind::SPIKE => one_read(0x22E, 0x10),
        MapElementKind::CAVE45 => one_read(0x237, 0x04),
        MapElementKind::GYL => one_read(0x237, 0x02),
        MapElementKind::CHOUSE => one_read(0x238, 0x10),
        MapElementKind::KINGSTOMB => one_read(0x226, 0x10),
        MapElementKind::SAHA => two_reads(0x20A, 0x70, 0x410, 0x10),
        MapElementKind::POTION => one_read(0x411, 0x20),
        MapElementKind::SMITH => one_read(0x411, 0x04),
        MapElementKind::POWDER => one_read(0x411, 0x80),
        MapElementKind::BOMBOSTABLET => one_read(0x411, 0x02),
        MapElementKind::ETHERTABLET => one_read(0x411, 0x01),
        MapElementKind::BOTTLEMERCHANT => one_read(0x3C9, 0x02),
        MapElementKind::DESERTLEDGE => one_read(0x2B0, 0x40),
        MapElementKind::FLOATINGISLAND => one_read(0x285, 0x40),
        MapElementKind::HOBO => one_read(0x3C9, 0x01),
        MapElementKind::KINGZORA => one_read(0x410, 0x02),
        MapElementKind::ZORALEDGE => one_read(0x301, 0x40),
        MapElementKind::LAKEHYLIAISLAND => one_read(0x2B5, 0x40),
        MapElementKind::PED => one_read(0x300, 0x40),
        MapElementKind::MUSHROOM => one_read(0x411, 0x10),
        MapElementKind::OLDMAN => one_read(0x410, 0x01),
        MapElementKind::SPECROCK => one_read(0x283, 0x40),
        MapElementKind::SUNKENTREASURE => one_read(0x2BB, 0x40),
        MapElementKind::BUMPERCAVELEDGE => one_read(0x2CA, 0x40),
        MapElementKind::MAZERACE => one_read(0x2A8, 0x40),
        MapElementKind::DIGGAME => one_read(0x2E8, 0x40),
        MapElementKind::STUMPY => one_read(0x410, 0x08),
        MapElementKind::FLUTESPOT => one_read(0x2AA, 0x40),
        MapElementKind::PURPLECHEST => one_read(0x3C9, 0x10),
        MapElementKind::PYRAMID => one_read(0x2DB, 0x40),
        MapElementKind::CATFISH => one_read(0x410, 0x20),
    }
}

/// The entry of the standard table for `kind`.
pub open spec fn standard_entry(kind: MapElementKind) -> EntryView {
    EntryView { location_id: kind, reads: sram_reads(kind) }
}

/// The standard table: one entry for each location, over the snapshot
/// window.
pub open spec fn standard_table() -> TableView {
    TableView {
        window: SNAPSHOT_WINDOW as nat,
        entries: Seq::new(
            TRACKED_LOCATIONS as nat,
            |i: int| standard_entry(tracked_location(i)),
        ),
    }
}

/// Position of a location in the standard table, counted from one; zero for
/// `BLANK`.
pub open spec fn ordinal(kind: MapElementKind) -> int {
    match kind {
        MapElementKind::BLANK => 0,
        MapElementKind::SUPERBUNNYU => 1,
        MapElementKind::SPIRALU => 2,
        MapElementKind::SPECM => 3,
        MapElementKind::PARAM => 4,
        MapElementKind::PARAL => 5,
        MapElementKind::HOOKSHOT => 6,
        MapElementKind::HYPE => 7,
        MapElementKind::MIRESHED => 8,
        MapElementKind::LIBRARY => 9,
        MapElementKind::SICKKID => 10,
        MapElementKind::AGINAH => 11,
        MapElementKind::DAM => 12,
        MapElementKind::ICEROD => 13,
        MapElementKind::HAMMERPEGS => 14,
        MapElementKind::MMC => 15,
        MapElementKind::WATERFALL => 16,
        MapElementKind::PFAIRY => 17,
        MapElementKind::MIMIC => 18,
        MapElementKind::CHESTGAME => 19,
        MapElementKind::CHICKEN => 20,
        MapElementKind::BONK => 21,
        MapElementKind::BREWERY => 22,
        MapElementKind::CHECKERBOARD => 23,
        MapElementKind::BLINDS => 24,
        MapElementKind::SPIKE => 25,
        MapElementKind::CAVE45 => 26,
        MapElementKind::GYL => 27,
        MapElementKind::CHOUSE => 28,
        MapElementKind::KINGSTOMB => 29,
        MapElementKind::SAHA => 30,
        MapElementKind::POTION => 31,
        MapElementKind::SMITH => 32,
        MapElementKind::POWDER => 33,
        MapElementKind::BOMBOSTABLET => 34,
        MapElementKind::ETHERTABLET => 35,
        MapElementKind::BOTTLEMERCHANT => 36,
        MapElementKind::DESERTLEDGE => 37,
        MapElementKind::FLOATINGISLAND => 38,
        MapElementKind::HOBO => 39,
        MapElementKind::KINGZORA => 40,
        MapElementKind::ZORALEDGE => 41,
        MapElementKind::LAKEHYLIAISLAND => 42,
        MapElementKind::PED => 43,
        MapElementKind::MUSHROOM => 44,
        MapElementKind::OLDMAN => 45,
        MapElementKind::SPECROCK => 46,
        MapElementKind::SUNKENTREASURE => 47,
        MapElementKind::BUMPERCAVELEDGE => 48,
        MapElementKind::MAZERACE => 49,
        MapElementKind::DIGGAME => 50,
        MapElementKind::STUMPY => 51,
        MapElementKind::FLUTESPOT => 52,
        MapElementKind::PURPLECHEST => 53,
        MapElementKind::PYRAMID => 54,
        MapElementKind::CATFISH => 55,
    }
}

/// Each position of the standard table holds the location with that
/// ordinal, so no location occurs twice.
pub proof fn lemma_tracked_location_ordinal(i: int)
    requires
        0 <= i < TRACKED_LOCATIONS,
    ensures
        ordinal(tracked_location(i)) == i + 1,
{
}

/// The entry of every tracked location is well formed and stays within the
/// snapshot window.
pub proof fn lemma_standard_entry_well_formed(i: int)
    requires
        0 <= i < TRACKED_LOCATIONS,
    ensures
        standard_entry(tracked_location(i)).well_formed(),
        standard_entry(tracked_location(i)).within(SNAPSHOT_WINDOW as nat),
{
}

/// The standard table is well formed.
pub proof fn lemma_standard_table_well_formed()
    ensures
        standard_table().well_formed(),
{
    let t = standard_table();
    assert forall|i: int| 0 <= i < t.entries.len() implies (#[trigger] t.entries[i]).well_formed()
        && t.entries[i].within(t.window) by {
        lemma_standard_entry_well_formed(i);
    }
    assert forall|i: int, j: int| 0 <= i < j < t.entries.len() implies (#[trigger] t.entries[i]).location_id
        != (#[trigger] t.entries[j]).location_id by {
        lemma_tracked_location_ordinal(i);
        lemma_tracked_location_ordinal(j);
    }
}

/// The standard table knows every location but `BLANK`.
pub proof fn lemma_standard_table_knows(kind: MapElementKind)
    ensures
        standard_table().knows(kind) <==> kind != MapElementKind::BLANK,
{
    let t = standard_table();
    if kind != MapElementKind::BLANK {
        let i = ordinal(kind) - 1;
        assert(t.entries[i].location_id == kind);
    } else {
        assert forall|i: int| 0 <= i < t.entries.len() implies (#[trigger] t.entries[i]).location_id
            != kind by {
            lemma_tracked_location_ordinal(i);
        }
    }
}

/// A vector of one read.
fn single_read(address: u32, mask: u8) -> (reads: Vec<MemoryRead>)
    ensures
        reads@ == one_read(address, mask),
{
    let mut reads: Vec<MemoryRead> = Vec::new();
    reads.push(MemoryRead { address, mask });
    reads
}

/// A vector of two reads.
fn double_read(a0: u32, m0: u8, a1: u32, m1: u8) -> (reads: Vec<MemoryRead>)
    ensures
        reads@ == two_reads(a0, m0, a1, m1),
{
    let mut reads: Vec<MemoryRead> = Vec::new();
    reads.push(MemoryRead { address: a0, mask: m0 });
    reads.push(MemoryRead { address: a1, mask: m1 });
    reads
}

/// The reads of `kind` in save memory.
pub fn reads_of(kind: MapElementKind) -> (reads: Vec<MemoryRead>)
    ensures
        reads@ == sram_reads(kind),
{
    match kind {
        MapElementKind::BLANK => Vec::new(),
        MapElementKind::SUPERBUNNYU => single_read(0x1F0, 0x30),
        MapElementKind::SPIRALU => single_read(0x1FC, 0x10),
        MapElementKind::SPECM => single_read(0x1D5, 0x04),
        MapElementKind::PARAM => double_read(0x1DE, 0xF0, 0x1DF, 0x01),
        MapElementKind::PARAL => single_read(0x1FE, 0x30),
        MapElementKind::HOOKSHOT => single_read(0x078, 0xF0),
        MapElementKind::HYPE => double_read(0x23C, 0xF0, 0x23D, 0x04),
        MapElementKind::MIRESHED => single_read(0x21A, 0x30),
        MapElementKind::LIBRARY => single_read(0x410, 0x80),
        MapElementKind::SICKKID => single_read(0x410, 0x04),
        MapElementKind::AGINAH => single_read(0x214, 0x10),
        MapElementKind::DAM => single_read(0x216, 0x10),
        MapElementKind::ICEROD => single_read(0x240, 0x10),
        MapElementKind::HAMMERPEGS => single_read(0x24F, 0x04),
        MapElementKind::MMC => double_read(0x246, 0xF0, 0x247, 0x04),
        MapElementKind::WATERFALL => single_read(0x228, 0x30),
        MapElementKind::PFAIRY => single_read(0x22C, 0x30),
        MapElementKind::MIMIC => single_read(0x218, 0x10),
        MapElementKind::CHESTGAME => single_read(0x20D, 0x04),
        MapElementKind::CHICKEN => single_read(0x210, 0x10),
        MapElementKind::BONK => single_read(0x248, 0x10),
        MapElementKind::BREWERY => single_read(0x20C, 0x10),
        MapElementKind::CHECKERBOARD => single_read(0x24D, 0x02),
        MapElementKind::BLINDS => double_read(0x23A, 0xF0, 0x23B, 0x01),
        MapElementKind::SPIKE => single_read(0x22E, 0x10),
        MapElementKind::CAVE45 => single_read(0x237, 0x04),
        MapElementKind::GYL => single_read(0x237, 0x02),
        MapElementKind::CHOUSE => single_read(0x238, 0x10),
        MapElementKind::KINGSTOMB => single_read(0x226, 0x10),
        MapElementKind::SAHA => double_read(0x20A, 0x70, 0x410, 0x10),
        MapElementKind::POTION => single_read(0x411, 0x20),
        MapElementKind::SMITH => single_read(0x411, 0x04),
        MapElementKind::POWDER => single_read(0x411, 0x80),
        MapElementKind::BOMBOSTABLET => single_read(0x411, 0x02),
        MapElementKind::ETHERTABLET => single_read(0x411, 0x01),
        MapElementKind::BOTTLEMERCHANT => single_read(0x3C9, 0x02),
        MapElementKind::DESERTLEDGE => single_read(0x2B0, 0x40),
        MapElementKind::FLOATINGISLAND => single_read(0x285, 0x40),
        MapElementKind::HOBO => single_read(0x3C9, 0x01),
        MapElementKind::KINGZORA => single_read(0x410, 0x02),
        MapElementKind::ZORALEDGE => single_read(0x301, 0x40),
        MapElementKind::LAKEHYLIAISLAND => single_read(0x2B5, 0x40),
        MapElementKind::PED => single_read(0x300, 0x40),
        MapElementKind::MUSHROOM => single_read(0x411, 0x10),
        MapElementKind::OLDMAN => single_read(0x410, 0x01),
        MapElementKind::SPECROCK => single_read(0x283, 0x40),
        MapElementKind::SUNKENTREASURE => single_read(0x2BB, 0x40),
        MapElementKind::BUMPERCAVELEDGE => single_read(0x2CA, 0x40),
        MapElementKind::MAZERACE => single_read(0x2A8, 0x40),
        MapElementKind::DIGGAME => single_read(0x2E8, 0x40),
        MapElementKind::STUMPY => single_read(0x410, 0x08),
        MapElementKind::FLUTESPOT => single_read(0x2AA, 0x40),
        MapElementKind::PURPLECHEST => single_read(0x3C9, 0x10),
        MapElementKind::PYRAMID => single_read(0x2DB, 0x40),
        MapElementKind::CATFISH => single_read(0x410, 0x20),
    }
}

/// The location at position `i` of the standard table; `BLANK` past its
/// end.
pub fn location_at(i: usize) -> (kind: MapElementKind)
    ensures
        kind == tracked_location(i as int),
{
    if i == 0 {
        MapElementKind::SUPERBUNNYU
    } else if i == 1 {
        MapElementKind::SPIRALU
    } else if i == 2 {
        MapElementKind::SPECM
    } else if i == 3 {
        MapElementKind::PARAM
    } else if i == 4 {
        MapElementKind::PARAL
    } else if i == 5 {
        MapElementKind::HOOKSHOT
    } else if i == 6 {
        MapElementKind::HYPE
    } else if i == 7 {
        MapElementKind::MIRESHED
    } else if i == 8 {
        MapElementKind::LIBRARY
    } else if i == 9 {
        MapElementKind::SICKKID
    } else if i == 10 {
        MapElementKind::AGINAH
    } else if i == 11 {
        MapElementKind::DAM
    } else if i == 12 {
        MapElementKind::ICEROD
    } else if i == 13 {
        MapElementKind::HAMMERPEGS
    } else if i == 14 {
        MapElementKind::MMC
    } else if i == 15 {
        MapElementKind::WATERFALL
    } else if i == 16 {
        MapElementKind::PFAIRY
    } else if i == 17 {
        MapElementKind::MIMIC
    } else if i == 18 {
        MapElementKind::CHESTGAME
    } else if i == 19 {
        MapElementKind::CHICKEN
    } else if i == 20 {
        MapElementKind::BONK
    } else if i == 21 {
        MapElementKind::BREWERY
    } else if i == 22 {
        MapElementKind::CHECKERBOARD
    } else if i == 23 {
        MapElementKind::BLINDS
    } else if i == 24 {
        MapElementKind::SPIKE
    } else if i == 25 {
        MapElementKind::CAVE45
    } else if i == 26 {
        MapElementKind::GYL
    } else if i == 27 {
        MapElementKind::CHOUSE
    } else if i == 28 {
        MapElementKind::KINGSTOMB
    } else if i == 29 {
        MapElementKind::SAHA
    } else if i == 30 {
        MapElementKind::POTION
    } else if i == 31 {
        MapElementKind::SMITH
    } else if i == 32 {
        MapElementKind::POWDER
    } else if i == 33 {
        MapElementKind::BOMBOSTABLET
    } else if i == 34 {
        MapElementKind::ETHERTABLET
    } else if i == 35 {
        MapElementKind::BOTTLEMERCHANT
    } else if i == 36 {
        MapElementKind::DESERTLEDGE
    } else if i == 37 {
        MapElementKind::FLOATINGISLAND
    } else if i == 38 {
        MapElementKind::HOBO
    } else if i == 39 {
        MapElementKind::KINGZORA
    } else if i == 40 {
        MapElementKind::ZORALEDGE
    } else if i == 41 {
        MapElementKind::LAKEHYLIAISLAND
    } else if i == 42 {
        MapElementKind::PED
    } else if i == 43 {
        MapElementKind::MUSHROOM
    } else if i == 44 {
        MapElementKind::OLDMAN
    } else if i == 45 {
        MapElementKind::SPECROCK
    } else if i == 46 {
        MapElementKind::SUNKENTREASURE
    } else if i == 47 {
        MapElementKind::BUMPERCAVELEDGE
    } else if i == 48 {
        MapElementKind::MAZERACE
    } else if i == 49 {
        MapElementKind::DIGGAME
    } else if i == 50 {
        MapElementKind::STUMPY
    } else if i == 51 {
        MapElementKind::FLUTESPOT
    } else if i == 52 {
        MapElementKind::PURPLECHEST
    } else if i == 53 {
        MapElementKind::PYRAMID
    } else if i == 54 {
        MapElementKind::CATFISH
    } else {
        MapElementKind::BLANK
    }
}

impl MemoryLayoutTable {
    /// A table over a window of `window` bytes with the given entries, in
    /// their order.
    pub fn new(window: u32, entries: Vec<MemoryLayoutEntry>) -> (table: Self)
        requires
            (TableView { window: window as nat, entries: entry_views(entries@) }).well_formed(),
        ensures
            table@ == (TableView { window: window as nat, entries: entry_views(entries@) }),
            table@.well_formed(),
    {
        MemoryLayoutTable { window, entries }
    }

    /// The standard table of this game's locations.
    pub fn standard() -> (table: Self)
        ensures
            table@ == standard_table(),
            table@.well_formed(),
    {
        let mut entries: Vec<MemoryLayoutEntry> = Vec::new();
        let mut i: usize = 0;
        while i < TRACKED_LOCATIONS
            invariant
                i <= TRACKED_LOCATIONS,
                entries@.len() == i,
                forall|j: int|
                    0 <= j < i ==> (#[trigger] entries@[j])@ == standard_entry(tracked_location(j)),
            decreases TRACKED_LOCATIONS - i,
        {
            let kind = location_at(i);
            let reads = reads_of(kind);
            entries.push(MemoryLayoutEntry::new(kind, reads));
            i = i + 1;
        }
        let table = MemoryLayoutTable { window: SNAPSHOT_WINDOW, entries };
        proof {
            assert(table@.entries =~= standard_table().entries);
            lemma_standard_table_well_formed();
        }
        table
    }

    /// Length of the snapshot window that the table addresses.
    pub fn window(&self) -> (window: u32)
        ensures
            window as nat == self@.window,
    {
        self.window
    }

    /// Number of entries.
    pub fn len(&self) -> (n: usize)
        ensures
            n == self@.entries.len(),
    {
        self.entries.len()
    }

    /// All entries, in table order.
    pub fn all_entries(&self) -> (entries: &Vec<MemoryLayoutEntry>)
        ensures
            entry_views(entries@) == self@.entries,
    {
        &self.entries
    }

    /// The entry of `location_id`, or `None` where the table has none: the
    /// location is then unknown.
    pub fn lookup(&self, location_id: MapElementKind) -> (found: Option<&MemoryLayoutEntry>)
        ensures
            match found {
                Some(entry) => self@.lookup(location_id) == Some(entry@),
                None => self@.lookup(location_id) is None,
            },
            found is Some <==> self@.knows(location_id),
    {
        let mut i: usize = 0;
        while i < self.entries.len()
            invariant
                i <= self.entries.len(),
                forall|j: int| 0 <= j < i ==> (#[trigger] self@.entries[j]).location_id != location_id,
            decreases self.entries.len() - i,
        {
            if self.entries[i].location_id == location_id {
                assert(self@.is_first_match(i as int, location_id));
                return Some(&self.entries[i]);
            }
            i = i + 1;
        }
        None
    }
}

} // verus!
