//! The kinds of element that can be shown on the map or in the icon rows.

use vstd::prelude::*;

verus! {

/// A kind of map element. Every variant but `BLANK` names a location whose
/// check status can be read from console memory.
#[allow(non_camel_case_types)]
#[derive(Debug, Clone, Copy, PartialEq, Eq, Structural, Hash)]
pub enum MapElementKind {
    BLANK,
    SUPERBUNNYU,
    SPIRALU,
    SPECM,
    PARAM,
    PARAL,
    HOOKSHOT,
    HYPE,
    MIRESHED,
    LIBRARY,
    SICKKID,
    AGINAH,
    DAM,
    ICEROD,
    HAMMERPEGS,
    MMC,
    WATERFALL,
    PFAIRY,
    MIMIC,
    CHESTGAME,
    CHICKEN,
    BONK,
    BREWERY,
    CHECKERBOARD,
    BLINDS,
    SPIKE,
    CAVE45,
    GYL,
    CHOUSE,
    KINGSTOMB,
    SAHA,
    POTION,
    SMITH,
    POWDER,
    BOMBOSTABLET,
    ETHERTABLET,
    BOTTLEMERCHANT,
    DESERTLEDGE,
    FLOATINGISLAND,
    HOBO,
    KINGZORA,
    ZORALEDGE,
    LAKEHYLIAISLAND,
    PED,
    MUSHROOM,
    OLDMAN,
    SPECROCK,
    SUNKENTREASURE,
    BUMPERCAVELEDGE,
    MAZERACE,
    DIGGAME,
    STUMPY,
    FLUTESPOT,
    PURPLECHEST,
    PYRAMID,
    CATFISH,
}

} // verus!
