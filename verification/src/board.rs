//! The mapping between board positions and the numbered board slots of
//! the presentation scene.
//!
//! The scene lays the board out as four rows of six slots, numbered
//! 1 to 24: the opponent's back row first, then the opponent's front
//! row, then the player's front row, then the player's back row. The
//! rules engine instead names a position by whose half it is on, which
//! row, and the index within the row; this module computes the slot
//! number of such a position and enumerates the whole layout.

use vstd::prelude::*;
use crate::types::{BoardPos, PlayerId, RowId};

verus! {

/// How many slots the board scene has.
pub const BOARD_SLOT_COUNT: usize = 24;

/// How many slots one row holds.
pub const ROW_LEN: usize = 6;

/// A board position agnostic to the player's id: whether the slot is
/// on the friendly half, which row, and the index within the row.
#[derive(Clone, Copy, Debug, PartialEq, Eq, Structural)]
pub struct SlotPos {
    pub is_friendly: bool,
    pub row_id: RowId,
    pub index: usize,
}

impl SlotPos {
    /// A position the slot numbering is defined for: on a creature row
    /// (the hero slot is not part of the numbered layout) and within
    /// the row's length.
    pub open spec fn valid(self) -> bool {
        self.row_id !is Hero && self.index < ROW_LEN
    }

    /// The board position this slot stands for once the owning
    /// player's id is known.
    pub fn into_board_slot(self, player_id: PlayerId) -> (r: BoardPos)
        ensures
            r == (BoardPos { player_id, row_id: self.row_id, row_index: self.index }),
    {
        BoardPos::new(player_id, self.row_id, self.index)
    }
}

/// The slot number of a position: the opponent's half fills slots 1 to
/// 12 (back row first), the friendly half slots 13 to 24 (front row
/// first); within a quadrant the slots follow the row index, and the
/// numbering starts at 1, as the scene's slots do.
pub open spec fn spec_slot_index(pos: SlotPos) -> int {
    let quadrant = if pos.is_friendly {
        if pos.row_id is FrontRow {
            2 * ROW_LEN
        } else {
            3 * ROW_LEN
        }
    } else {
        if pos.row_id is FrontRow {
            ROW_LEN as int
        } else {
            0
        }
    };
    quadrant + pos.index + 1
}

/// Given a slot position, returns its corresponding board slot number.
pub fn boardslot_from_pos(pos: SlotPos) -> (r: usize)
    requires
        pos.valid(),
    ensures
        r == spec_slot_index(pos),
        1 <= r <= BOARD_SLOT_COUNT,
{
    let row_len = BOARD_SLOT_COUNT / 4;
    let offset = if pos.is_friendly {
        let player_offset = row_len * 2;
        let row_offset = match pos.row_id {
            RowId::FrontRow => 0,
            RowId::BackRow => row_len,
            RowId::Hero => 0,
        };
        player_offset + row_offset + pos.index
    } else {
        let row_offset = match pos.row_id {
            RowId::FrontRow => row_len,
            RowId::BackRow => 0,
            RowId::Hero => 0,
        };
        row_offset + pos.index
    };
    // In the scene, slots begin at index 1 instead of 0.
    offset + 1
}

/// The slot numbering is one-to-one: two distinct valid positions
/// never share a slot number.
pub proof fn lemma_slot_index_injective(a: SlotPos, b: SlotPos)
    requires
        a.valid(),
        b.valid(),
        spec_slot_index(a) == spec_slot_index(b),
    ensures
        a == b,
{
}

/// Enumerates the whole layout: entry `i` is the position of slot
/// `i + 1`, covering every slot of the board exactly once, in the
/// order the scene initializes them — opponent back, opponent front,
/// player front, player back.
pub fn initial_slot_positions() -> (r: Vec<SlotPos>)
    ensures
        r.len() == BOARD_SLOT_COUNT,
        forall|i: int|
            0 <= i < r.len() ==> (#[trigger] r[i]).valid() && spec_slot_index(r[i]) == i + 1,
{
    let mut v: Vec<SlotPos> = Vec::new();
    let mut quadrant: usize = 0;
    while quadrant < 4
        invariant
            quadrant <= 4,
            v.len() == quadrant * ROW_LEN,
            forall|i: int|
                0 <= i < v.len() ==> (#[trigger] v[i]).valid() && spec_slot_index(v[i]) == i + 1,
        decreases 4 - quadrant,
    {
        let (is_friendly, row_id) = match quadrant {
            0 => (false, RowId::BackRow),
            1 => (false, RowId::FrontRow),
            2 => (true, RowId::FrontRow),
            _ => (true, RowId::BackRow),
        };
        let mut i: usize = 0;
        while i < ROW_LEN
            invariant
                i <= ROW_LEN,
                quadrant < 4,
                v.len() == quadrant * ROW_LEN + i,
                (is_friendly, row_id) == match quadrant {
                    0 => (false, RowId::BackRow),
                    1 => (false, RowId::FrontRow),
                    2 => (true, RowId::FrontRow),
                    _ => (true, RowId::BackRow),
                },
                forall|j: int|
                    0 <= j < v.len() ==> (#[trigger] v[j]).valid() && spec_slot_index(v[j]) == j
                        + 1,
            decreases ROW_LEN - i,
        {
            let pos = SlotPos { is_friendly, row_id, index: i };
            v.push(pos);
            i = i + 1;
        }
        quadrant = quadrant + 1;
    }
    v
}

} // verus!
