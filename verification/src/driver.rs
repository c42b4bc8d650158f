//! The protocol driver: the state machine that walks the handshake and
//! the turn loop, consulting the agent at each decision point.
//!
//! The driver owns no I/O. It is handed each server message as a plain
//! value and answers with the message to put on the wire, if any; the
//! embedding application owns the transport and runs the receive loop.
//! Every failure the driver can itself detect is returned as a typed
//! error, never a panic: a protocol violation is fatal and the driver
//! never retries it, a closed bus ends the session in an orderly way.

use vstd::prelude::*;
use crate::agent::{
    action_of_request, announced_id, default_prompt_pos, forwarded_to_consumer, Agent,
};
use crate::errors::SessionError;
use crate::messages::{
    answer_matches, kind_of, spec_answer_for, spec_kind_of, ActionEvent, FromClient, FromConsumer,
    FromServer, ToConsumer,
};
use crate::types::PlayerId;

verus! {

/// Where the driver stands in the protocol.
///
/// The handshake is strict and ordered: hello, then ready, then game
/// start, then the initial state snapshot; only then does the turn loop
/// begin. Sending `Ready` is part of handling the hello, so no separate
/// state is needed between receiving it and the wait for game start.
#[derive(Clone, Copy, Debug, PartialEq, Eq, Structural)]
pub enum Phase {
    AwaitHello,
    AwaitGameStart,
    AwaitInitialState,
    TurnLoop,
    ActionLoop,
}

/// The accepted set of each state: exactly one server message variant
/// is valid at any point of the handshake, and the two loops each
/// accept their own small set. Anything else is a protocol violation.
pub open spec fn accepts(p: Phase, m: FromServer) -> bool {
    match p {
        Phase::AwaitHello => m is Hello,
        Phase::AwaitGameStart => m is GameStart,
        Phase::AwaitInitialState => m is State,
        Phase::TurnLoop => m is TurnStart || m is State,
        Phase::ActionLoop => m is WaitingForAction || m is Prompt || m is State,
    }
}

/// The transition relation of the phase machine: `q` is a phase the
/// driver may stand in after handling `m` in `p`. Only the action the
/// agent chooses on `WaitingForAction` leaves two possibilities, as the
/// distinguished end-turn action returns to the turn loop.
pub open spec fn may_step(p: Phase, m: FromServer, q: Phase) -> bool {
    accepts(p, m) && match p {
        Phase::AwaitHello => q == Phase::AwaitGameStart,
        Phase::AwaitGameStart => q == Phase::AwaitInitialState,
        Phase::AwaitInitialState => q == Phase::TurnLoop,
        Phase::TurnLoop => q == if m is TurnStart {
            Phase::ActionLoop
        } else {
            Phase::TurnLoop
        },
        Phase::ActionLoop => if m is WaitingForAction {
            q == Phase::TurnLoop || q == Phase::ActionLoop
        } else {
            q == Phase::ActionLoop
        },
    }
}

/// `q` is reachable from `p` by handling the messages of `msgs` in
/// order, each one accepted.
pub open spec fn reaches(p: Phase, msgs: Seq<FromServer>, q: Phase) -> bool
    decreases msgs.len(),
{
    if msgs.len() == 0 {
        q == p
    } else {
        exists|mid: Phase|
            #[trigger] may_step(p, msgs[0], mid) && reaches(mid, msgs.drop_first(), q)
    }
}

/// The driver never consults the agent before the handshake is
/// complete: the turn loop and the action loop, the only phases whose
/// handling asks the agent for decisions, are reachable from the start
/// only through a message sequence that begins with exactly the
/// handshake — hello, then game start, then the initial state.
pub proof fn lemma_no_decision_before_handshake(msgs: Seq<FromServer>, q: Phase)
    requires
        reaches(Phase::AwaitHello, msgs, q),
        q is TurnLoop || q is ActionLoop,
    ensures
        msgs.len() >= 3,
        msgs[0] is Hello,
        msgs[1] is GameStart,
        msgs[2] is State,
{
    assert(msgs.len() != 0);
    let mid = choose|mid: Phase|
        #[trigger] may_step(Phase::AwaitHello, msgs[0], mid) && reaches(
            mid,
            msgs.drop_first(),
            q,
        );
    assert(mid == Phase::AwaitGameStart);
    lemma_handshake_tail(msgs.drop_first(), q);
    assert(msgs.drop_first()[0] == msgs[1]);
    assert(msgs.drop_first()[1] == msgs[2]);
}

/// From the wait for game start, the loops are reachable only through
/// a game start followed by the initial state.
proof fn lemma_handshake_tail(msgs: Seq<FromServer>, q: Phase)
    requires
        reaches(Phase::AwaitGameStart, msgs, q),
        q is TurnLoop || q is ActionLoop,
    ensures
        msgs.len() >= 2,
        msgs[0] is GameStart,
        msgs[1] is State,
{
    assert(msgs.len() != 0);
    let mid = choose|mid: Phase|
        #[trigger] may_step(Phase::AwaitGameStart, msgs[0], mid) && reaches(
            mid,
            msgs.drop_first(),
            q,
        );
    assert(mid == Phase::AwaitInitialState);
    let rest = msgs.drop_first();
    assert(reaches(Phase::AwaitInitialState, rest, q));
    assert(rest.len() != 0);
    let mid2 = choose|mid2: Phase|
        #[trigger] may_step(Phase::AwaitInitialState, rest[0], mid2) && reaches(
            mid2,
            rest.drop_first(),
            q,
        );
    assert(rest[0] is State);
    assert(rest[0] == msgs[1]);
}

/// In the turn loop and the action loop a state update never moves the
/// phase: forwarding a snapshot is free of protocol effect.
pub proof fn lemma_state_update_keeps_phase(p: Phase, m: FromServer, q: Phase)
    requires
        may_step(p, m, q),
        m is State,
        p is TurnLoop || p is ActionLoop,
    ensures
        q == p,
{
}

/// The protocol driver: the phase it stands in, the two ids set once at
/// handshake time, and the agent it consults.
pub struct Driver {
    pub phase: Phase,
    pub my_id: Option<PlayerId>,
    pub opponent_id: Option<PlayerId>,
    pub agent: Agent,
}

impl Driver {
    /// Well-formedness: the agent knows the same assigned id as the
    /// driver, and past the wait for hello that id is set.
    pub open spec fn wf(self) -> bool {
        &&& self.agent.spec_player_id() == self.my_id
        &&& (self.phase !is AwaitHello ==> self.my_id is Some)
    }

    /// What handling the hello leaves behind: the assigned id is
    /// recorded, the agent told — which announces the id to the
    /// consumer over the bus, unless the consumer is already gone, a
    /// loss the driver tolerates since the session then fails at its
    /// next decision point — the phase moves to the wait for game
    /// start, and nothing else changes.
    pub open spec fn post_hello(pre: Driver, post: Driver, id: PlayerId) -> bool {
        &&& post.phase is AwaitGameStart
        &&& post.my_id == Some(id)
        &&& post.opponent_id == pre.opponent_id
        &&& post.agent.spec_player_id() == Some(id)
        &&& (announced_id(pre.agent, post.agent, id, true) || announced_id(
            pre.agent,
            post.agent,
            id,
            false,
        ))
    }

    /// The phase a forwarded state update leaves the driver in: the
    /// initial snapshot opens the turn loop, a later one moves nothing.
    pub open spec fn phase_after_state(p: Phase) -> Phase {
        if p is AwaitInitialState {
            Phase::TurnLoop
        } else {
            p
        }
    }

    /// The phase the chosen action leaves the driver in: the
    /// distinguished end-turn action closes the action loop.
    pub open spec fn phase_after_action(a: ActionEvent) -> Phase {
        if a is EndTurn {
            Phase::TurnLoop
        } else {
            Phase::ActionLoop
        }
    }

    /// A fresh driver at the start of the handshake, owning the agent
    /// it will consult.
    pub fn new(agent: Agent) -> (r: Driver)
        requires
            agent.spec_player_id() is None,
        ensures
            r == (Driver { phase: Phase::AwaitHello, my_id: None, opponent_id: None, agent }),
            r.wf(),
    {
        Driver { phase: Phase::AwaitHello, my_id: None, opponent_id: None, agent }
    }

    /// Handles one server message: checks it against the accepted set
    /// of the current phase, consults the agent where a decision is
    /// owed, and returns the message to put on the wire, if any.
    ///
    /// A message outside the accepted set yields the protocol
    /// violation, never a transition. A closed bus yields the
    /// disconnection error and leaves the driver unchanged. A state
    /// update is forwarded to the agent at once and — once the turn
    /// loop is running — never changes the driver, so replaying the
    /// same snapshot changes nothing beyond forwarding it again.
    pub fn handle_message(&mut self, msg: FromServer) -> (r: Result<
        Option<FromClient>,
        SessionError,
    >)
        requires
            old(self).wf(),
        ensures
            final(self).wf(),
            // A protocol violation exactly when the message is outside
            // the accepted set; the driver then stands unchanged.
            !accepts(old(self).phase, msg) ==> r == Err::<Option<FromClient>, SessionError>(
                SessionError::ProtocolViolation {
                    phase: old(self).phase,
                    received: spec_kind_of(msg),
                },
            ) && *final(self) == *old(self),
            accepts(old(self).phase, msg) ==> (r matches Err(e) ==> e
                == SessionError::BusDisconnected),
            // Every successful step follows the transition relation;
            // a failed one leaves the driver unchanged.
            r is Ok ==> may_step(old(self).phase, msg, final(self).phase),
            r is Err ==> *final(self) == *old(self),
            // What goes on the wire is tied to the phase it answers.
            r matches Ok(Some(out)) ==> (out is Ready <==> old(self).phase is AwaitHello) && (out
                is ClientAction || out is PromptResponse ==> old(self).phase is ActionLoop),
            // The hello: record the assigned id, tell the agent, answer
            // ready.
            msg matches FromServer::Hello(id) ==> (old(self).phase is AwaitHello ==> r
                == Ok::<Option<FromClient>, SessionError>(Some(FromClient::Ready))
                && Driver::post_hello(*old(self), *final(self), id)),
            // The game start: record the opponent's id once.
            msg matches FromServer::GameStart { opponent_id } ==> (old(self).phase
                is AwaitGameStart ==> r == Ok::<Option<FromClient>, SessionError>(None)
                && *final(self) == (Driver {
                phase: Phase::AwaitInitialState,
                opponent_id: Some(opponent_id),
                ..*old(self)
            })),
            // A state update: the snapshot is handed to the agent at
            // once and unmodified — for the bridged agent, enqueued
            // for the consumer before any later message is read — and
            // the phase moves only out of the wait for the initial
            // snapshot. So once the turn loop runs, a snapshot,
            // replayed or not, changes nothing in the driver beyond
            // that forward.
            msg matches FromServer::State(v) ==> (accepts(old(self).phase, msg) ==> (r is Ok ==> r
                == Ok::<Option<FromClient>, SessionError>(None) && final(self).phase
                == Driver::phase_after_state(old(self).phase) && final(self).my_id == old(
                self,
            ).my_id && final(self).opponent_id == old(self).opponent_id && forwarded_to_consumer(
                old(self).agent,
                final(self).agent,
                ToConsumer::StateUpdate(v),
            ))),
            // The turn start: enter the action loop.
            msg is TurnStart && old(self).phase is TurnLoop ==> r
                == Ok::<Option<FromClient>, SessionError>(None) && *final(self) == (Driver {
                phase: Phase::ActionLoop,
                ..*old(self)
            }),
            // The automated agent always answers, so with it only a
            // violation can fail a step.
            accepts(old(self).phase, msg) && old(self).agent is Automated ==> r is Ok,
            // The wait for an action: the agent chooses; the end-turn
            // action returns to the turn loop, any other stays here.
            msg is WaitingForAction && old(self).phase is ActionLoop ==> (r matches Ok(out)
                ==> out matches Some(m) && m matches FromClient::ClientAction(a) && (old(
                self,
            ).agent is Automated ==> a == ActionEvent::EndTurn) && (exists|req: FromConsumer|
                action_of_request(req, old(self).my_id->0) == Some(a)) && *final(self) == (Driver {
                phase: Driver::phase_after_action(a),
                ..*old(self)
            })),
            // A prompt: the agent answers with the one matching shape;
            // the driver stays in the action loop.
            msg matches FromServer::Prompt(k, _v) ==> (old(self).phase is ActionLoop ==> (r
                matches Ok(out) ==> out matches Some(m) && m matches FromClient::PromptResponse(
                ans,
            ) && answer_matches(k, ans) && (old(self).agent is Automated ==> ans
                == spec_answer_for(k, default_prompt_pos(old(self).my_id->0))) && *final(self)
                == *old(self))),
    {
        match self.phase {
            Phase::AwaitHello => match msg {
                FromServer::Hello(id) => {
                    self.my_id = Some(id);
                    let _ = self.agent.assign_id(id);
                    self.phase = Phase::AwaitGameStart;
                    Ok(Some(FromClient::Ready))
                },
                other => Err(
                    SessionError::ProtocolViolation {
                        phase: Phase::AwaitHello,
                        received: kind_of(&other),
                    },
                ),
            },
            Phase::AwaitGameStart => match msg {
                FromServer::GameStart { opponent_id } => {
                    self.opponent_id = Some(opponent_id);
                    self.phase = Phase::AwaitInitialState;
                    Ok(None)
                },
                other => Err(
                    SessionError::ProtocolViolation {
                        phase: Phase::AwaitGameStart,
                        received: kind_of(&other),
                    },
                ),
            },
            Phase::AwaitInitialState => match msg {
                FromServer::State(v) => match self.agent.observe_state_update(&v) {
                    Ok(()) => {
                        self.phase = Phase::TurnLoop;
                        Ok(None)
                    },
                    Err(e) => Err(e),
                },
                other => Err(
                    SessionError::ProtocolViolation {
                        phase: Phase::AwaitInitialState,
                        received: kind_of(&other),
                    },
                ),
            },
            Phase::TurnLoop => match msg {
                FromServer::TurnStart => {
                    self.agent.on_turn_start();
                    self.phase = Phase::ActionLoop;
                    Ok(None)
                },
                FromServer::State(v) => match self.agent.observe_state_update(&v) {
                    Ok(()) => Ok(None),
                    Err(e) => Err(e),
                },
                other => Err(
                    SessionError::ProtocolViolation {
                        phase: Phase::TurnLoop,
                        received: kind_of(&other),
                    },
                ),
            },
            Phase::ActionLoop => match msg {
                FromServer::WaitingForAction(v) => match self.agent.next_action(&v) {
                    Ok(a) => {
                        if a.is_end_turn() {
                            self.phase = Phase::TurnLoop;
                        }
                        Ok(Some(FromClient::ClientAction(a)))
                    },
                    Err(e) => Err(e),
                },
                FromServer::Prompt(kind, v) => match self.agent.answer_prompt(kind, &v) {
                    Ok(ans) => Ok(Some(FromClient::PromptResponse(ans))),
                    Err(e) => Err(e),
                },
                FromServer::State(v) => match self.agent.observe_state_update(&v) {
                    Ok(()) => Ok(None),
                    Err(e) => Err(e),
                },
                other => Err(
                    SessionError::ProtocolViolation {
                        phase: Phase::ActionLoop,
                        received: kind_of(&other),
                    },
                ),
            },
        }
    }
}

} // verus!
