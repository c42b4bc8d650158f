//! The agent: the pluggable decision-making capability the driver
//! consults for actions and prompt answers.
//!
//! Two variants exist, selected at construction. The automated agent
//! answers deterministically and is meant for scripted or bot play.
//! The bridged agent crosses the thread boundary: every decision blocks
//! on the bus until the consumer loop supplies an intent, and every
//! outbound notification is a non-blocking send into the bus, recorded
//! on the endpoint's send log so the contracts pin what was forwarded.

use vstd::prelude::*;
use crate::bus::{sent_one, BiChannel};
use crate::errors::SessionError;
use crate::messages::{
    answer_for, answer_matches, spec_answer_for, ActionEvent, FromConsumer, PromptAnswer,
    PromptKind, ToConsumer,
};
use crate::notifier::Notifier;
use crate::types::{BoardPos, GameStateView, PlayerId, RowId};

verus! {

/// The action that a consumer intent stands for, once the assigned
/// player id `me` is known. A prompt reply is not an action: while the
/// driver waits for an action, a stale prompt reply carries no intent.
pub open spec fn action_of_request(req: FromConsumer, me: PlayerId) -> Option<ActionEvent> {
    match req {
        FromConsumer::EndTurnAction => Some(ActionEvent::EndTurn),
        FromConsumer::SummonFromHandToSlotRequest { board_pos, card_id } => Some(
            ActionEvent::SummonCreatureFromHand { player_id: me, board_pos, card_id },
        ),
        FromConsumer::PromptReply(..) => None,
    }
}

/// The board position the automated agent answers every prompt with.
pub open spec fn default_prompt_pos(me: PlayerId) -> BoardPos {
    BoardPos { player_id: me, row_id: RowId::BackRow, row_index: 0 }
}

/// Turns one received consumer intent into the action it stands for,
/// exactly: an end-turn intent is the end-turn action, a summon
/// request keeps its chosen position and card under the player's own
/// id, and a prompt reply — which answers no request for an action —
/// ends the session with the disconnection error, as the driver never
/// guesses a default action.
pub fn action_from_intent(req: FromConsumer, me: PlayerId) -> (r: Result<
    ActionEvent,
    SessionError,
>)
    ensures
        action_of_request(req, me) matches Some(a) ==> r == Ok::<ActionEvent, SessionError>(a),
        action_of_request(req, me) is None ==> r == Err::<ActionEvent, SessionError>(
            SessionError::BusDisconnected,
        ),
{
    match req {
        FromConsumer::EndTurnAction => Ok(ActionEvent::EndTurn),
        FromConsumer::SummonFromHandToSlotRequest { board_pos, card_id } => Ok(
            ActionEvent::SummonCreatureFromHand { player_id: me, board_pos, card_id },
        ),
        FromConsumer::PromptReply(..) => Err(SessionError::BusDisconnected),
    }
}

/// Turns one received consumer intent into the answer it gives to a
/// prompt of shape `kind`, exactly: a prompt reply's position is
/// wrapped into the one matching answer shape, and any other intent —
/// which answers no prompt — ends the session with the disconnection
/// error, as the driver never guesses an answer.
pub fn answer_from_intent(req: FromConsumer, kind: PromptKind) -> (r: Result<
    PromptAnswer,
    SessionError,
>)
    ensures
        req matches FromConsumer::PromptReply(pos) ==> r == Ok::<PromptAnswer, SessionError>(
            spec_answer_for(kind, pos),
        ),
        req !is PromptReply ==> r == Err::<PromptAnswer, SessionError>(
            SessionError::BusDisconnected,
        ),
{
    match req {
        FromConsumer::PromptReply(pos) => Ok(answer_for(kind, pos)),
        FromConsumer::EndTurnAction => Err(SessionError::BusDisconnected),
        FromConsumer::SummonFromHandToSlotRequest { .. } => Err(SessionError::BusDisconnected),
    }
}

/// The deterministic decision-maker: always ends the turn, answers
/// every prompt with the default position, ignores notifications.
pub struct AutomatedAgent {
    pub player_id: Option<PlayerId>,
}

/// The decision-maker that delegates to a human operator through the
/// bus: it owns the network-side endpoint and lives on the network
/// thread only.
pub struct BridgedAgent {
    pub player_id: Option<PlayerId>,
    pub channel: BiChannel<ToConsumer, FromConsumer>,
}

/// The pluggable decision-making capability consumed by the driver.
pub enum Agent {
    Automated(AutomatedAgent),
    Bridged(BridgedAgent),
}

/// `post` is `pre` after forwarding exactly one message `m` to the
/// consumer: the automated agent keeps and sends nothing, the bridged
/// agent's endpoint logged exactly `m`, unmodified, and nothing else
/// about the agent moved.
pub open spec fn forwarded_to_consumer(pre: Agent, post: Agent, m: ToConsumer) -> bool {
    match pre {
        Agent::Automated(_) => post == pre,
        Agent::Bridged(b) => post matches Agent::Bridged(b2) && b2.player_id == b.player_id
            && sent_one(b.channel, b2.channel, m),
    }
}

/// `post` is `pre` after recording the assigned id `id`: the id is
/// set, and the bridged agent's endpoint logged the announcement
/// `PlayerIdSet(id)` for the consumer exactly when the recording
/// reported success (`announced`) — on failure, the one case where
/// the consumer endpoint was already gone, nothing was logged.
pub open spec fn announced_id(pre: Agent, post: Agent, id: PlayerId, announced: bool) -> bool {
    match pre {
        Agent::Automated(_) => post == Agent::Automated(AutomatedAgent { player_id: Some(id) })
            && announced,
        Agent::Bridged(b) => post matches Agent::Bridged(b2) && b2.player_id == Some(id)
            && b2.channel.sender.inner == b.channel.sender.inner && b2.channel.receiver
            == b.channel.receiver && b2.channel.sender.log@ == (if announced {
            b.channel.sender.log@.push(ToConsumer::PlayerIdSet(id))
        } else {
            b.channel.sender.log@
        }),
    }
}

impl Agent {
    /// The player id assigned at handshake time, if it has arrived.
    pub open spec fn spec_player_id(self) -> Option<PlayerId> {
        match self {
            Agent::Automated(a) => a.player_id,
            Agent::Bridged(b) => b.player_id,
        }
    }

    /// A fresh automated agent; its id arrives with the server's hello.
    pub fn new_automated() -> (r: Agent)
        ensures
            r == Agent::Automated(AutomatedAgent { player_id: None }),
    {
        Agent::Automated(AutomatedAgent { player_id: None })
    }

    /// A fresh bridged agent owning the network-side bus endpoint; its
    /// id arrives with the server's hello.
    pub fn new_bridged(channel: BiChannel<ToConsumer, FromConsumer>) -> (r: Agent)
        ensures
            r == Agent::Bridged(BridgedAgent { player_id: None, channel }),
            r.spec_player_id() is None,
    {
        Agent::Bridged(BridgedAgent { player_id: None, channel })
    }

    /// Records the player id the server assigned, and announces it to
    /// the consumer: the bridged agent enqueues exactly
    /// `PlayerIdSet(id)` — its first bus message of the session — and
    /// reports whether the announcement reached the queue. It fails
    /// only when the consumer endpoint is already gone; the id is
    /// recorded either way, as nobody is left to read the
    /// announcement.
    pub fn assign_id(&mut self, id: PlayerId) -> (r: Result<(), SessionError>)
        ensures
            final(self).spec_player_id() == Some(id),
            announced_id(*old(self), *final(self), id, r is Ok),
            r matches Err(e) ==> e == SessionError::BusDisconnected && *old(self) is Bridged,
    {
        match self {
            Agent::Automated(a) => {
                a.player_id = Some(id);
                Ok(())
            },
            Agent::Bridged(b) => {
                b.player_id = Some(id);
                b.channel.send(ToConsumer::PlayerIdSet(id))
            },
        }
    }

    /// Asks for the next action of the turn. The automated agent ends
    /// the turn. The bridged agent blocks on the bus until the
    /// consumer supplies one intent and maps it through
    /// [`action_from_intent`]: the received intent's own action, never
    /// a guessed one.
    pub fn next_action(&self, _state: &GameStateView) -> (r: Result<ActionEvent, SessionError>)
        requires
            self.spec_player_id() is Some,
        ensures
            self is Automated ==> r == Ok::<ActionEvent, SessionError>(ActionEvent::EndTurn),
            r matches Ok(a) ==> exists|req: FromConsumer|
                action_of_request(req, self.spec_player_id()->0) == Some(a),
            r matches Err(e) ==> e == SessionError::BusDisconnected && self is Bridged,
    {
        match self {
            Agent::Automated(_) => {
                proof {
                    assert(action_of_request(
                        FromConsumer::EndTurnAction,
                        self.spec_player_id()->0,
                    ) == Some(ActionEvent::EndTurn));
                }
                Ok(ActionEvent::EndTurn)
            },
            Agent::Bridged(b) => {
                let me = match b.player_id {
                    Some(id) => id,
                    None => {
                        return Err(SessionError::BusDisconnected);
                    },
                };
                match b.channel.recv() {
                    Ok(req) => {
                        let r = action_from_intent(req, me);
                        proof {
                            if r is Ok {
                                assert(action_of_request(req, me) == Some(r->Ok_0));
                            }
                        }
                        r
                    },
                    Err(e) => Err(e),
                }
            },
        }
    }

    /// Asks for the answer to a prompt of the given kind. The answer
    /// always has the one shape the kind asks for. The automated agent
    /// answers with the default position. The bridged agent blocks on
    /// the bus until the consumer supplies one intent and maps it
    /// through [`answer_from_intent`]: the received reply's own
    /// position, never a guessed one.
    pub fn answer_prompt(&self, kind: PromptKind, _state: &GameStateView) -> (r: Result<
        PromptAnswer,
        SessionError,
    >)
        requires
            self.spec_player_id() is Some,
        ensures
            r matches Ok(a) ==> answer_matches(kind, a),
            self is Automated ==> r == Ok::<PromptAnswer, SessionError>(
                spec_answer_for(kind, default_prompt_pos(self.spec_player_id()->0)),
            ),
            r matches Err(e) ==> e == SessionError::BusDisconnected && self is Bridged,
    {
        match self {
            Agent::Automated(a) => {
                let me = match a.player_id {
                    Some(id) => id,
                    None => {
                        return Err(SessionError::BusDisconnected);
                    },
                };
                Ok(answer_for(kind, BoardPos::new(me, RowId::BackRow, 0)))
            },
            Agent::Bridged(b) => {
                match b.channel.recv() {
                    Ok(req) => answer_from_intent(req, kind),
                    Err(e) => Err(e),
                }
            },
        }
    }

    /// Forwards a fresh state snapshot: the bridged agent enqueues
    /// `StateUpdate` with the view passed through unmodified, without
    /// blocking; the automated agent has no use for it. The forward
    /// fails only when the bus is closed, and then nothing was
    /// enqueued and the agent is unchanged.
    pub fn observe_state_update(&mut self, state: &GameStateView) -> (r: Result<(), SessionError>)
        ensures
            *old(self) is Automated ==> r == Ok::<(), SessionError>(()),
            r is Ok ==> forwarded_to_consumer(
                *old(self),
                *final(self),
                ToConsumer::StateUpdate(*state),
            ),
            r matches Err(e) ==> e == SessionError::BusDisconnected && *old(self) is Bridged
                && *final(self) == *old(self),
    {
        match self {
            Agent::Automated(_) => Ok(()),
            Agent::Bridged(b) => b.channel.send(ToConsumer::StateUpdate(*state)),
        }
    }

    /// Hook invoked when the server opens a turn. Neither variant
    /// currently keeps per-turn bookkeeping.
    pub fn on_turn_start(&self) {
    }

    /// Creates the write-only sink the rules engine uses for
    /// out-of-band events. The bridged agent hands out a second
    /// sending handle into the bus, with its own fresh send log; the
    /// automated agent discards events.
    pub fn make_notifier(&self) -> (r: Notifier)
        ensures
            self is Automated <==> r is Null,
            r.sent() == Seq::<ToConsumer>::empty(),
    {
        match self {
            Agent::Automated(_) => Notifier::Null,
            Agent::Bridged(b) => Notifier::Bus(b.channel.notifier_handle()),
        }
    }
}

} // verus!
