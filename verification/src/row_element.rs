//! Elements of the icon rows shown below the maps.

use crate::map_element::MapElementKind;
use vstd::prelude::*;

verus! {

/// The mark a player has put on a row element.
#[derive(Debug, Clone, PartialEq, Eq)]
pub enum RowElementState {
    NONE,
    CROSSED,
    CIRCLED,
}

/// One icon of the rows, with the player's annotations.
#[derive(Debug, Clone, PartialEq, Eq)]
pub struct RowElement {
    pub kind: MapElementKind,
    pub state: RowElementState,
    pub min_count: Option<i32>,
    pub max_count: Option<i32>,
    pub notes: String,
}

/// A fresh, unmarked row element of the given kind.
pub fn map_element_kind_to_row_element(kind: MapElementKind) -> (element: RowElement)
    ensures
        element.kind == kind,
        element.state == RowElementState::NONE,
        element.min_count == None::<i32>,
        element.max_count == None::<i32>,
        element.notes@ == Seq::<char>::empty(),
{
    RowElement {
        kind: kind,
        state: RowElementState::NONE,
        min_count: None,
        max_count: None,
        notes: String::new(),
    }
}

} // verus!
