//! Plain-value model of the game data that crosses the wire and the bus.
//!
//! The rules engine that produces full game states lives outside this
//! crate; the core never inspects a snapshot beyond the fields modelled
//! here, it only forwards snapshots to whoever consumes them.

use vstd::prelude::*;

verus! {

/// Opaque unique identifier assigned by the server at handshake time.
#[derive(Clone, Copy, Debug, PartialEq, Eq, Structural, Hash)]
pub struct PlayerId {
    pub id: u64,
}

impl PlayerId {
    pub fn new(id: u64) -> (r: PlayerId)
        ensures
            r.id == id,
    {
        PlayerId { id }
    }
}

/// Opaque identifier of one card instance on the board or in a hand.
#[derive(Clone, Copy, Debug, PartialEq, Eq, Structural, Hash)]
pub struct CardId {
    pub id: u64,
}

impl CardId {
    pub fn new(id: u64) -> (r: CardId)
        ensures
            r.id == id,
    {
        CardId { id }
    }
}

/// A row of one player's half of the board.
#[derive(Clone, Copy, Debug, PartialEq, Eq, Structural, Hash)]
pub enum RowId {
    FrontRow,
    BackRow,
    Hero,
}

/// A board position as the rules engine names it: a row of one player's
/// half and an index within that row.
#[derive(Clone, Copy, Debug, PartialEq, Eq, Structural, Hash)]
pub struct BoardPos {
    pub player_id: PlayerId,
    pub row_id: RowId,
    pub row_index: usize,
}

impl BoardPos {
    pub fn new(player_id: PlayerId, row_id: RowId, row_index: usize) -> (r: BoardPos)
        ensures
            r == (BoardPos { player_id, row_id, row_index }),
    {
        BoardPos { player_id, row_id, row_index }
    }
}

/// A read-only snapshot of game state as seen by one player.
///
/// Snapshots are produced by the external rules engine and are opaque to
/// this core: the `tag` stands for the snapshot's payload and is carried
/// through unchanged, `opponent_id` is the one field the consumer reads.
#[derive(Clone, Copy, Debug, PartialEq, Eq, Structural)]
pub struct GameStateView {
    pub opponent_id: PlayerId,
    pub tag: u64,
}

impl GameStateView {
    pub fn new(opponent_id: PlayerId, tag: u64) -> (r: GameStateView)
        ensures
            r == (GameStateView { opponent_id, tag }),
    {
        GameStateView { opponent_id, tag }
    }

    pub fn opponent_id(&self) -> (r: PlayerId)
        ensures
            r == self.opponent_id,
    {
        self.opponent_id
    }
}

/// The per-player view of one unit card: what the presentation layer
/// needs to draw it.
#[derive(Clone, Debug, PartialEq, Eq)]
pub struct CardView {
    pub id: CardId,
    pub title: String,
    pub attack: u64,
    pub health: u64,
}

/// An out-of-band notification pushed by the rules engine outside the
/// request/response turn loop.
#[derive(Clone, Debug, PartialEq, Eq)]
pub enum ClientEventView {
    AddCardToHand(CardView),
    UnitSet { pos: BoardPos, card: CardView },
    SummonCreatureFromHand { player_id: PlayerId, board_pos: BoardPos, card_id: CardId },
    TurnEnded(PlayerId),
    TurnStarted(PlayerId),
    PlayerGainMana(PlayerId, usize),
    PlayerSpendMana { player_id: PlayerId, spent_mana_count: usize },
}

} // verus!
