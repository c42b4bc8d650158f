//! The consumer side of the bus: the per-frame state the presentation
//! layer keeps over the course of a game, and the decisions it takes on
//! each message.
//!
//! The world never blocks: each frame it polls its bus endpoint for at
//! most one message, applies it to its own counters and ids, and hands
//! back plain commands — what label to set, which slot receives a card
//! — for the scene layer to carry out. Player intents travel the other
//! way as bus messages. Where the rules engine would be violated (mana
//! below zero, an event before the player id is known) the world
//! answers with a typed error instead of giving up the process.

use vstd::prelude::*;
use crate::board::{spec_slot_index, boardslot_from_pos, SlotPos, ROW_LEN};
use crate::bus::{sent_one, BiChannel, TryRecv};
use crate::errors::SessionError;
use crate::messages::{FromConsumer, ToConsumer};
use crate::text::{spec_summon_label, summon_label};
use crate::types::{BoardPos, CardId, CardView, ClientEventView, GameStateView, PlayerId};

verus! {

/// Why the world rejected a message: each variant names the condition
/// the rules engine would otherwise have been violated by.
#[derive(Clone, Copy, Debug, PartialEq, Eq, Structural)]
pub enum WorldError {
    /// A per-player event arrived before the assigned player id.
    MissingPlayerId,
    /// A unit was set on the hero slot, which the numbered board
    /// layout does not carry.
    HeroRowUnsupported,
    /// A unit was set past the end of its row.
    SlotIndexOutOfRange,
    /// More mana was spent than the player had.
    ManaUnderflow,
    /// A mana total grew past what a counter can hold.
    ManaOverflow,
}

/// A plain instruction to the scene layer, computed here so the scene
/// code has nothing left to decide.
#[derive(Clone, Debug, PartialEq, Eq)]
pub enum UiCommand {
    /// Show `unused` of `limit` mana.
    SetManaDisplay { unused: usize, limit: usize },
    /// Show this text on the end-turn button.
    SetTurnButtonText(String),
    /// Add this card to the player's hand.
    AddCardToHand(CardView),
    /// Show this label on the numbered slot.
    SummonAtSlot { slot_index: usize, label: String },
}

/// The text of the end-turn button while it is the player's turn.
pub open spec fn spec_friendly_turn_label() -> Seq<char> {
    "End turn"@
}

/// The text of the end-turn button while it is the opponent's turn.
pub open spec fn spec_enemy_turn_label() -> Seq<char> {
    "(Enemy turn)"@
}

/// The slot position a board position of the rules engine lands on,
/// seen by the player with id `me`.
pub open spec fn spec_event_slot(pos: BoardPos, me: PlayerId) -> SlotPos {
    SlotPos { is_friendly: pos.player_id == me, row_id: pos.row_id, index: pos.row_index }
}

/// The per-frame consumer state: the ids set once per session, the
/// drag-and-summon bookkeeping, the mana counters, and the bus
/// endpoint the frame loop polls.
pub struct World {
    pub channel: BiChannel<FromConsumer, ToConsumer>,
    pub player_id: Option<PlayerId>,
    pub opponent_id: Option<PlayerId>,
    pub dragging_hand_card: Option<String>,
    pub card_to_summon: Option<(SlotPos, String)>,
    pub player_mana_limit: usize,
    pub enemy_mana_limit: usize,
    pub player_mana_count: usize,
    pub enemy_mana_count: usize,
}

/// What recording the assigned player id leaves behind.
pub open spec fn player_id_set_outcome(
    pre: World,
    post: World,
    id: PlayerId,
    r: Result<Vec<UiCommand>, WorldError>,
) -> bool {
    &&& post == (World { player_id: Some(id), ..pre })
    &&& r matches Ok(cmds) && cmds@.len() == 0
}

/// What a state snapshot leaves behind: the opponent id is recorded
/// the first time and never replaced, nothing else moves — so
/// replaying the same snapshot changes nothing.
pub open spec fn state_update_outcome(
    pre: World,
    post: World,
    view: GameStateView,
    r: Result<Vec<UiCommand>, WorldError>,
) -> bool {
    &&& post == (World {
        opponent_id: if pre.opponent_id is Some {
            pre.opponent_id
        } else {
            Some(view.opponent_id)
        },
        ..pre
    })
    &&& r matches Ok(cmds) && cmds@.len() == 0
}

/// What a card added to the hand leaves behind: the card goes to the
/// scene unchanged, the world itself keeps nothing.
pub open spec fn add_card_outcome(
    pre: World,
    post: World,
    card: CardView,
    r: Result<Vec<UiCommand>, WorldError>,
) -> bool {
    &&& post == pre
    &&& r matches Ok(cmds) && cmds@.len() == 1 && cmds@[0] == UiCommand::AddCardToHand(card)
}

/// What a unit-set event leaves behind: the slot number is computed
/// from the event's position as this player sees it, and the slot
/// shows the card's label; the world itself keeps nothing.
pub open spec fn unit_set_outcome(
    pre: World,
    post: World,
    pos: BoardPos,
    card: CardView,
    r: Result<Vec<UiCommand>, WorldError>,
) -> bool {
    if pre.player_id is None {
        post == pre && r == Err::<Vec<UiCommand>, WorldError>(WorldError::MissingPlayerId)
    } else if pos.row_id is Hero {
        post == pre && r == Err::<Vec<UiCommand>, WorldError>(WorldError::HeroRowUnsupported)
    } else if pos.row_index >= ROW_LEN {
        post == pre && r == Err::<Vec<UiCommand>, WorldError>(WorldError::SlotIndexOutOfRange)
    } else {
        &&& post == pre
        &&& r matches Ok(cmds) && cmds@.len() == 1 && (cmds@[0]
            matches UiCommand::SummonAtSlot { slot_index, label } && slot_index
            == spec_slot_index(spec_event_slot(pos, pre.player_id->0)) && label@
            == spec_summon_label(card))
    }
}

/// What a turn start leaves behind: the turn owner's unused mana is
/// reset to one above their limit — the turn's mana gain — and the
/// button text says whose turn it is.
pub open spec fn turn_started_outcome(
    pre: World,
    post: World,
    p: PlayerId,
    r: Result<Vec<UiCommand>, WorldError>,
) -> bool {
    if pre.player_id is None {
        post == pre && r == Err::<Vec<UiCommand>, WorldError>(WorldError::MissingPlayerId)
    } else if p == pre.player_id->0 {
        if pre.player_mana_limit == usize::MAX {
            post == pre && r == Err::<Vec<UiCommand>, WorldError>(WorldError::ManaOverflow)
        } else {
            &&& post == (World {
                player_mana_count: (pre.player_mana_limit + 1) as usize,
                ..pre
            })
            &&& r matches Ok(cmds) && cmds@.len() == 1 && (cmds@[0]
                matches UiCommand::SetTurnButtonText(t) && t@ == spec_friendly_turn_label())
        }
    } else {
        if pre.enemy_mana_limit == usize::MAX {
            post == pre && r == Err::<Vec<UiCommand>, WorldError>(WorldError::ManaOverflow)
        } else {
            &&& post == (World { enemy_mana_count: (pre.enemy_mana_limit + 1) as usize, ..pre })
            &&& r matches Ok(cmds) && cmds@.len() == 1 && (cmds@[0]
                matches UiCommand::SetTurnButtonText(t) && t@ == spec_enemy_turn_label())
        }
    }
}

/// What a mana gain leaves behind: the owner's limit grows and the
/// display shows their unused mana against the new limit.
pub open spec fn gain_mana_outcome(
    pre: World,
    post: World,
    p: PlayerId,
    n: usize,
    r: Result<Vec<UiCommand>, WorldError>,
) -> bool {
    if pre.player_id is None {
        post == pre && r == Err::<Vec<UiCommand>, WorldError>(WorldError::MissingPlayerId)
    } else if p == pre.player_id->0 {
        if pre.player_mana_limit + n > usize::MAX {
            post == pre && r == Err::<Vec<UiCommand>, WorldError>(WorldError::ManaOverflow)
        } else {
            &&& post == (World { player_mana_limit: (pre.player_mana_limit + n) as usize, ..pre })
            &&& r matches Ok(cmds) && cmds@.len() == 1 && cmds@[0] == UiCommand::SetManaDisplay {
                unused: pre.player_mana_count,
                limit: (pre.player_mana_limit + n) as usize,
            }
        }
    } else {
        if pre.enemy_mana_limit + n > usize::MAX {
            post == pre && r == Err::<Vec<UiCommand>, WorldError>(WorldError::ManaOverflow)
        } else {
            &&& post == (World { enemy_mana_limit: (pre.enemy_mana_limit + n) as usize, ..pre })
            &&& r matches Ok(cmds) && cmds@.len() == 1 && cmds@[0] == UiCommand::SetManaDisplay {
                unused: pre.enemy_mana_count,
                limit: (pre.enemy_mana_limit + n) as usize,
            }
        }
    }
}

/// What spending mana leaves behind: the owner's unused mana shrinks
/// and the display shows it against the unchanged limit.
pub open spec fn spend_mana_outcome(
    pre: World,
    post: World,
    p: PlayerId,
    n: usize,
    r: Result<Vec<UiCommand>, WorldError>,
) -> bool {
    if pre.player_id is None {
        post == pre && r == Err::<Vec<UiCommand>, WorldError>(WorldError::MissingPlayerId)
    } else if p == pre.player_id->0 {
        if pre.player_mana_count < n {
            post == pre && r == Err::<Vec<UiCommand>, WorldError>(WorldError::ManaUnderflow)
        } else {
            &&& post == (World { player_mana_count: (pre.player_mana_count - n) as usize, ..pre })
            &&& r matches Ok(cmds) && cmds@.len() == 1 && cmds@[0] == UiCommand::SetManaDisplay {
                unused: (pre.player_mana_count - n) as usize,
                limit: pre.player_mana_limit,
            }
        }
    } else {
        if pre.enemy_mana_count < n {
            post == pre && r == Err::<Vec<UiCommand>, WorldError>(WorldError::ManaUnderflow)
        } else {
            &&& post == (World { enemy_mana_count: (pre.enemy_mana_count - n) as usize, ..pre })
            &&& r matches Ok(cmds) && cmds@.len() == 1 && cmds@[0] == UiCommand::SetManaDisplay {
                unused: (pre.enemy_mana_count - n) as usize,
                limit: pre.enemy_mana_limit,
            }
        }
    }
}

/// Replaying a state snapshot is idempotent: applying the same
/// snapshot a second time leaves the world exactly where the first
/// application left it, whatever it held before.
pub proof fn lemma_state_update_idempotent(
    pre: World,
    mid: World,
    post: World,
    view: GameStateView,
    r1: Result<Vec<UiCommand>, WorldError>,
    r2: Result<Vec<UiCommand>, WorldError>,
)
    requires
        state_update_outcome(pre, mid, view, r1),
        state_update_outcome(mid, post, view, r2),
    ensures
        post == mid,
{
}

/// What an out-of-band event leaves behind, by event.
pub open spec fn event_outcome(
    pre: World,
    post: World,
    event: ClientEventView,
    r: Result<Vec<UiCommand>, WorldError>,
) -> bool {
    match event {
        ClientEventView::AddCardToHand(card) => add_card_outcome(pre, post, card, r),
        ClientEventView::UnitSet { pos, card } => unit_set_outcome(pre, post, pos, card, r),
        ClientEventView::SummonCreatureFromHand { .. } => post == pre && (r matches Ok(cmds)
            && cmds@.len() == 0),
        ClientEventView::TurnEnded(..) => post == pre && (r matches Ok(cmds) && cmds@.len()
            == 0),
        ClientEventView::TurnStarted(p) => turn_started_outcome(pre, post, p, r),
        ClientEventView::PlayerGainMana(p, n) => gain_mana_outcome(pre, post, p, n, r),
        ClientEventView::PlayerSpendMana { player_id, spent_mana_count } => spend_mana_outcome(
            pre,
            post,
            player_id,
            spent_mana_count,
            r,
        ),
    }
}

/// What one bus message leaves behind, by message.
pub open spec fn message_outcome(
    pre: World,
    post: World,
    msg: ToConsumer,
    r: Result<Vec<UiCommand>, WorldError>,
) -> bool {
    match msg {
        ToConsumer::PlayerIdSet(id) => player_id_set_outcome(pre, post, id, r),
        ToConsumer::StateUpdate(view) => state_update_outcome(pre, post, view, r),
        ToConsumer::ClientEvent(event) => event_outcome(pre, post, event, r),
    }
}

impl World {
    /// A fresh consumer state owning its bus endpoint: no ids yet, no
    /// drag in progress, every counter at zero.
    pub fn new(channel: BiChannel<FromConsumer, ToConsumer>) -> (r: World)
        ensures
            r == (World {
                channel: r.channel,
                player_id: None,
                opponent_id: None,
                dragging_hand_card: None,
                card_to_summon: None,
                player_mana_limit: 0,
                enemy_mana_limit: 0,
                player_mana_count: 0,
                enemy_mana_count: 0,
            }),
    {
        World {
            channel,
            player_id: None,
            opponent_id: None,
            dragging_hand_card: None,
            card_to_summon: None,
            player_mana_limit: 0,
            enemy_mana_limit: 0,
            player_mana_count: 0,
            enemy_mana_count: 0,
        }
    }

    /// Records the first state snapshot's opponent id; later snapshots
    /// change nothing.
    pub fn update_from_state(&mut self, view: GameStateView) -> (r: Result<
        Vec<UiCommand>,
        WorldError,
    >)
        ensures
            state_update_outcome(*old(self), *final(self), view, r),
    {
        if self.opponent_id.is_none() {
            self.opponent_id = Some(view.opponent_id());
        }
        Ok(Vec::new())
    }

    /// Adds a freshly drawn card to the player's hand.
    pub fn observe_add_card_to_hand(&mut self, card: CardView) -> (r: Result<
        Vec<UiCommand>,
        WorldError,
    >)
        ensures
            add_card_outcome(*old(self), *final(self), card, r),
    {
        let mut cmds: Vec<UiCommand> = Vec::new();
        cmds.push(UiCommand::AddCardToHand(card));
        Ok(cmds)
    }

    /// Shows a summoned unit on the slot its board position lands on.
    pub fn observe_creature_set_event(&mut self, pos: BoardPos, card: CardView) -> (r: Result<
        Vec<UiCommand>,
        WorldError,
    >)
        ensures
            unit_set_outcome(*old(self), *final(self), pos, card, r),
    {
        let me = match self.player_id {
            Some(id) => id,
            None => {
                return Err(WorldError::MissingPlayerId);
            },
        };
        let slot = SlotPos { is_friendly: pos.player_id.id == me.id, row_id: pos.row_id, index: pos.row_index };
        if matches!(pos.row_id, crate::types::RowId::Hero) {
            return Err(WorldError::HeroRowUnsupported);
        }
        if pos.row_index >= ROW_LEN {
            return Err(WorldError::SlotIndexOutOfRange);
        }
        let slot_index = boardslot_from_pos(slot);
        let label = summon_label(&card);
        let mut cmds: Vec<UiCommand> = Vec::new();
        cmds.push(UiCommand::SummonAtSlot { slot_index, label });
        Ok(cmds)
    }

    /// Resets the turn owner's unused mana for the new turn and
    /// relabels the end-turn button.
    pub fn observe_turn_started(&mut self, p: PlayerId) -> (r: Result<Vec<UiCommand>, WorldError>)
        ensures
            turn_started_outcome(*old(self), *final(self), p, r),
    {
        proof {
            reveal_strlit("End turn");
            reveal_strlit("(Enemy turn)");
        }
        let me = match self.player_id {
            Some(id) => id,
            None => {
                return Err(WorldError::MissingPlayerId);
            },
        };
        let text: &str;
        if p.id == me.id {
            if self.player_mana_limit == usize::MAX {
                return Err(WorldError::ManaOverflow);
            }
            self.player_mana_count = self.player_mana_limit + 1;
            text = "End turn";
        } else {
            if self.enemy_mana_limit == usize::MAX {
                return Err(WorldError::ManaOverflow);
            }
            self.enemy_mana_count = self.enemy_mana_limit + 1;
            text = "(Enemy turn)";
        }
        let mut cmds: Vec<UiCommand> = Vec::new();
        cmds.push(UiCommand::SetTurnButtonText(String::from_str(text)));
        Ok(cmds)
    }

    /// Grows the owner's mana limit and refreshes the display.
    pub fn observe_player_gain_mana(&mut self, p: PlayerId, n: usize) -> (r: Result<
        Vec<UiCommand>,
        WorldError,
    >)
        ensures
            gain_mana_outcome(*old(self), *final(self), p, n, r),
    {
        let me = match self.player_id {
            Some(id) => id,
            None => {
                return Err(WorldError::MissingPlayerId);
            },
        };
        let (unused, limit) = if p.id == me.id {
            if self.player_mana_limit > usize::MAX - n {
                return Err(WorldError::ManaOverflow);
            }
            self.player_mana_limit = self.player_mana_limit + n;
            (self.player_mana_count, self.player_mana_limit)
        } else {
            if self.enemy_mana_limit > usize::MAX - n {
                return Err(WorldError::ManaOverflow);
            }
            self.enemy_mana_limit = self.enemy_mana_limit + n;
            (self.enemy_mana_count, self.enemy_mana_limit)
        };
        let mut cmds: Vec<UiCommand> = Vec::new();
        cmds.push(UiCommand::SetManaDisplay { unused, limit });
        Ok(cmds)
    }

    /// Takes the spent mana from the owner's unused count and
    /// refreshes the display.
    pub fn observe_player_spend_mana(&mut self, p: PlayerId, n: usize) -> (r: Result<
        Vec<UiCommand>,
        WorldError,
    >)
        ensures
            spend_mana_outcome(*old(self), *final(self), p, n, r),
    {
        let me = match self.player_id {
            Some(id) => id,
            None => {
                return Err(WorldError::MissingPlayerId);
            },
        };
        let (unused, limit) = if p.id == me.id {
            if self.player_mana_count < n {
                return Err(WorldError::ManaUnderflow);
            }
            self.player_mana_count = self.player_mana_count - n;
            (self.player_mana_count, self.player_mana_limit)
        } else {
            if self.enemy_mana_count < n {
                return Err(WorldError::ManaUnderflow);
            }
            self.enemy_mana_count = self.enemy_mana_count - n;
            (self.enemy_mana_count, self.enemy_mana_limit)
        };
        let mut cmds: Vec<UiCommand> = Vec::new();
        cmds.push(UiCommand::SetManaDisplay { unused, limit });
        Ok(cmds)
    }

    /// Applies one out-of-band event from the rules engine.
    pub fn observe_notifier_event(&mut self, event: ClientEventView) -> (r: Result<
        Vec<UiCommand>,
        WorldError,
    >)
        ensures
            event_outcome(*old(self), *final(self), event, r),
    {
        match event {
            ClientEventView::AddCardToHand(card) => self.observe_add_card_to_hand(card),
            ClientEventView::UnitSet { pos, card } => self.observe_creature_set_event(pos, card),
            ClientEventView::SummonCreatureFromHand { .. } => Ok(Vec::new()),
            ClientEventView::TurnEnded(..) => Ok(Vec::new()),
            ClientEventView::TurnStarted(p) => self.observe_turn_started(p),
            ClientEventView::PlayerGainMana(p, n) => self.observe_player_gain_mana(p, n),
            ClientEventView::PlayerSpendMana { player_id, spent_mana_count } => self
                .observe_player_spend_mana(player_id, spent_mana_count),
        }
    }

    /// Applies one message from the bus.
    pub fn apply_message(&mut self, msg: ToConsumer) -> (r: Result<Vec<UiCommand>, WorldError>)
        ensures
            message_outcome(*old(self), *final(self), msg, r),
    {
        match msg {
            ToConsumer::PlayerIdSet(id) => {
                self.player_id = Some(id);
                Ok(Vec::new())
            },
            ToConsumer::StateUpdate(view) => self.update_from_state(view),
            ToConsumer::ClientEvent(event) => self.observe_notifier_event(event),
        }
    }

    /// One frame's worth of bus work: polls the endpoint without
    /// blocking and applies at most one message. An empty or closed
    /// queue leaves the world unchanged with nothing to do.
    pub fn poll(&mut self) -> (r: Result<Vec<UiCommand>, WorldError>)
        ensures
            (exists|msg: ToConsumer| message_outcome(*old(self), *final(self), msg, r)) || (
            *final(self) == *old(self) && (r matches Ok(cmds) && cmds@.len() == 0)),
    {
        match self.channel.try_recv() {
            TryRecv::Message(msg) => {
                let ghost m = msg;
                let r = self.apply_message(msg);
                proof {
                    assert(message_outcome(*old(self), *self, m, r));
                }
                r
            },
            TryRecv::Empty => Ok(Vec::new()),
            TryRecv::Closed => Ok(Vec::new()),
        }
    }

    /// Remembers where a dragged hand card stands: while the drag
    /// lasts, which card it is; when it ends over a slot, that the
    /// card is to be summoned there.
    pub fn on_hand_card_dragged(
        &mut self,
        card_path: String,
        is_ended: bool,
        over_slot: Option<SlotPos>,
    )
        ensures
            !is_ended ==> *final(self) == (World {
                dragging_hand_card: Some(card_path),
                ..*old(self)
            }),
            is_ended && over_slot is None ==> *final(self) == (World {
                dragging_hand_card: None,
                ..*old(self)
            }),
            is_ended ==> (over_slot matches Some(slot) ==> *final(self) == (World {
                dragging_hand_card: None,
                card_to_summon: Some((slot, card_path)),
                ..*old(self)
            })),
    {
        if is_ended {
            self.dragging_hand_card = None;
            match over_slot {
                Some(slot) => {
                    self.card_to_summon = Some((slot, card_path));
                },
                None => {},
            }
        } else {
            self.dragging_hand_card = Some(card_path);
        }
    }

    /// Takes the pending summon decision, if a drag ended over a slot
    /// since the last frame.
    pub fn take_pending_summon(&mut self) -> (r: Option<(SlotPos, String)>)
        ensures
            r == old(self).card_to_summon,
            *final(self) == (World { card_to_summon: None, ..*old(self) }),
    {
        self.card_to_summon.take()
    }

    /// The summon intent for a card dropped on a slot, owned by this
    /// player.
    pub fn summon_request(&self, slot: SlotPos, card_id: CardId) -> (r: FromConsumer)
        requires
            self.player_id is Some,
        ensures
            r == (FromConsumer::SummonFromHandToSlotRequest {
                board_pos: BoardPos {
                    player_id: self.player_id->0,
                    row_id: slot.row_id,
                    row_index: slot.index,
                },
                card_id,
            }),
    {
        let me = match self.player_id {
            Some(id) => id,
            None => PlayerId { id: 0 },
        };
        FromConsumer::SummonFromHandToSlotRequest { board_pos: slot.into_board_slot(me), card_id }
    }

    /// Sends a player intent to the network thread: on success exactly
    /// `intent` is appended to this endpoint's send log and no other
    /// field of the world moves. The send fails only when the network
    /// endpoint is gone, and then nothing was enqueued and the world
    /// is unchanged.
    pub fn send_intent(&mut self, intent: FromConsumer) -> (r: Result<(), SessionError>)
        ensures
            r is Ok ==> sent_one(old(self).channel, final(self).channel, intent) && *final(self)
                == (World { channel: final(self).channel, ..*old(self) }),
            r matches Err(e) ==> e == SessionError::BusDisconnected && *final(self) == *old(self),
    {
        self.channel.send(intent)
    }

    /// The player clicked the end-turn button: enqueue exactly the
    /// end-turn intent for the network thread.
    pub fn end_turn_clicked(&mut self) -> (r: Result<(), SessionError>)
        ensures
            r is Ok ==> sent_one(
                old(self).channel,
                final(self).channel,
                FromConsumer::EndTurnAction,
            ) && *final(self) == (World { channel: final(self).channel, ..*old(self) }),
            r matches Err(e) ==> e == SessionError::BusDisconnected && *final(self) == *old(self),
    {
        self.send_intent(FromConsumer::EndTurnAction)
    }

    /// The player answered an outstanding prompt with a position:
    /// enqueue exactly that reply for the network thread.
    pub fn reply_to_prompt(&mut self, pos: BoardPos) -> (r: Result<(), SessionError>)
        ensures
            r is Ok ==> sent_one(
                old(self).channel,
                final(self).channel,
                FromConsumer::PromptReply(pos),
            ) && *final(self) == (World { channel: final(self).channel, ..*old(self) }),
            r matches Err(e) ==> e == SessionError::BusDisconnected && *final(self) == *old(self),
    {
        self.send_intent(FromConsumer::PromptReply(pos))
    }
}

} // verus!
