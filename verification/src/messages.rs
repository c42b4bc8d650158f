//! The typed messages of the protocol and of the channel bus.

use vstd::prelude::*;
use crate::types::{BoardPos, CardId, ClientEventView, GameStateView, PlayerId};

verus! {

/// A server-initiated interactive sub-request issued mid-turn.
///
/// Each kind asks for exactly one shape of answer; there is no default
/// or fallback shape.
#[derive(Clone, Copy, Debug, PartialEq, Eq, Structural)]
pub enum PromptKind {
    Slot,
    CreaturePos,
    OpponentCreaturePos,
    OpponentSlot,
    PlayerCreaturePos,
    PlayerSlot,
}

/// The typed answer to a prompt: one variant per [`PromptKind`], each
/// carrying the chosen board position.
#[derive(Clone, Copy, Debug, PartialEq, Eq, Structural)]
pub enum PromptAnswer {
    Slot(BoardPos),
    CreaturePos(BoardPos),
    OpponentCreaturePos(BoardPos),
    OpponentSlot(BoardPos),
    PlayerCreaturePos(BoardPos),
    PlayerSlot(BoardPos),
}

/// True when `answer` has the one shape that `kind` asks for.
pub open spec fn answer_matches(kind: PromptKind, answer: PromptAnswer) -> bool {
    match kind {
        PromptKind::Slot => answer is Slot,
        PromptKind::CreaturePos => answer is CreaturePos,
        PromptKind::OpponentCreaturePos => answer is OpponentCreaturePos,
        PromptKind::OpponentSlot => answer is OpponentSlot,
        PromptKind::PlayerCreaturePos => answer is PlayerCreaturePos,
        PromptKind::PlayerSlot => answer is PlayerSlot,
    }
}

/// The answer of shape `kind` that carries the position `pos`.
pub open spec fn spec_answer_for(kind: PromptKind, pos: BoardPos) -> PromptAnswer {
    match kind {
        PromptKind::Slot => PromptAnswer::Slot(pos),
        PromptKind::CreaturePos => PromptAnswer::CreaturePos(pos),
        PromptKind::OpponentCreaturePos => PromptAnswer::OpponentCreaturePos(pos),
        PromptKind::OpponentSlot => PromptAnswer::OpponentSlot(pos),
        PromptKind::PlayerCreaturePos => PromptAnswer::PlayerCreaturePos(pos),
        PromptKind::PlayerSlot => PromptAnswer::PlayerSlot(pos),
    }
}

/// Builds the answer of the one shape that `kind` asks for, carrying
/// the chosen position: the one-to-one kind-to-answer dispatch.
pub fn answer_for(kind: PromptKind, pos: BoardPos) -> (r: PromptAnswer)
    ensures
        r == spec_answer_for(kind, pos),
        answer_matches(kind, r),
{
    match kind {
        PromptKind::Slot => PromptAnswer::Slot(pos),
        PromptKind::CreaturePos => PromptAnswer::CreaturePos(pos),
        PromptKind::OpponentCreaturePos => PromptAnswer::OpponentCreaturePos(pos),
        PromptKind::OpponentSlot => PromptAnswer::OpponentSlot(pos),
        PromptKind::PlayerCreaturePos => PromptAnswer::PlayerCreaturePos(pos),
        PromptKind::PlayerSlot => PromptAnswer::PlayerSlot(pos),
    }
}

/// A player-chosen move, including the distinguished `EndTurn` that
/// terminates the per-turn action loop.
#[derive(Clone, Copy, Debug, PartialEq, Eq, Structural)]
pub enum ActionEvent {
    EndTurn,
    SummonCreatureFromHand { player_id: PlayerId, board_pos: BoardPos, card_id: CardId },
}

impl ActionEvent {
    pub fn is_end_turn(&self) -> (r: bool)
        ensures
            r == (*self is EndTurn),
    {
        match self {
            ActionEvent::EndTurn => true,
            ActionEvent::SummonCreatureFromHand { .. } => false,
        }
    }
}

/// A message received from the game server.
#[derive(Clone, Debug, PartialEq, Eq)]
pub enum FromServer {
    Hello(PlayerId),
    GameStart { opponent_id: PlayerId },
    State(GameStateView),
    TurnStart,
    WaitingForAction(GameStateView),
    Prompt(PromptKind, GameStateView),
}

/// The bare variant of a server message, used to diagnose a protocol
/// violation without holding on to the message's payload.
#[derive(Clone, Copy, Debug, PartialEq, Eq, Structural)]
pub enum FromServerKind {
    Hello,
    GameStart,
    State,
    TurnStart,
    WaitingForAction,
    Prompt,
}

/// The bare variant of `msg`.
pub open spec fn spec_kind_of(msg: FromServer) -> FromServerKind {
    match msg {
        FromServer::Hello(..) => FromServerKind::Hello,
        FromServer::GameStart { .. } => FromServerKind::GameStart,
        FromServer::State(..) => FromServerKind::State,
        FromServer::TurnStart => FromServerKind::TurnStart,
        FromServer::WaitingForAction(..) => FromServerKind::WaitingForAction,
        FromServer::Prompt(..) => FromServerKind::Prompt,
    }
}

/// Returns the bare variant of `msg`.
pub fn kind_of(msg: &FromServer) -> (r: FromServerKind)
    ensures
        r == spec_kind_of(*msg),
{
    match msg {
        FromServer::Hello(..) => FromServerKind::Hello,
        FromServer::GameStart { .. } => FromServerKind::GameStart,
        FromServer::State(..) => FromServerKind::State,
        FromServer::TurnStart => FromServerKind::TurnStart,
        FromServer::WaitingForAction(..) => FromServerKind::WaitingForAction,
        FromServer::Prompt(..) => FromServerKind::Prompt,
    }
}

/// A message sent to the game server.
#[derive(Clone, Debug, PartialEq, Eq)]
pub enum FromClient {
    Ready,
    ClientAction(ActionEvent),
    PromptResponse(PromptAnswer),
}

/// A message travelling over the bus from the network thread to the
/// per-frame consumer loop.
#[derive(Clone, Debug, PartialEq, Eq)]
pub enum ToConsumer {
    StateUpdate(GameStateView),
    ClientEvent(ClientEventView),
    PlayerIdSet(PlayerId),
}

/// A message travelling over the bus from the consumer loop to the
/// network thread: a player intent.
#[derive(Clone, Copy, Debug, PartialEq, Eq, Structural)]
pub enum FromConsumer {
    SummonFromHandToSlotRequest { board_pos: BoardPos, card_id: CardId },
    EndTurnAction,
    PromptReply(BoardPos),
}

} // verus!
