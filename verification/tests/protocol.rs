//! End-to-end sessions of the protocol driver against both agents.

use salt_client::agent::{action_from_intent, answer_from_intent, Agent};
use salt_client::bus::create_channel;
use salt_client::driver::{Driver, Phase};
use salt_client::errors::SessionError;
use salt_client::messages::{
    ActionEvent, FromClient, FromConsumer, FromServer, FromServerKind, PromptAnswer, PromptKind,
    ToConsumer,
};
use salt_client::types::{BoardPos, CardId, GameStateView, PlayerId, RowId};
use salt_client::world::World;

fn view(opponent: u64, tag: u64) -> GameStateView {
    GameStateView::new(PlayerId::new(opponent), tag)
}

fn bridged_pair() -> (World, Driver) {
    let (consumer_end, network_end) = create_channel::<FromConsumer, ToConsumer>();
    let world = World::new(consumer_end);
    let driver = Driver::new(Agent::new_bridged(network_end));
    (world, driver)
}

#[test]
fn scenario_full_turn_with_bridged_agent() {
    let (mut world, mut driver) = bridged_pair();

    let r = driver.handle_message(FromServer::Hello(PlayerId::new(42)));
    assert!(matches!(r, Ok(Some(FromClient::Ready))));
    assert!(matches!(driver.phase, Phase::AwaitGameStart));
    assert_eq!(driver.my_id, Some(PlayerId::new(42)));

    // The assigned id reaches the consumer over the bus.
    let cmds = world.poll().unwrap();
    assert!(cmds.is_empty());
    assert_eq!(world.player_id, Some(PlayerId::new(42)));

    let r = driver.handle_message(FromServer::GameStart { opponent_id: PlayerId::new(7) });
    assert!(matches!(r, Ok(None)));
    assert_eq!(driver.opponent_id, Some(PlayerId::new(7)));

    let r = driver.handle_message(FromServer::State(view(7, 0)));
    assert!(matches!(r, Ok(None)));
    assert!(matches!(driver.phase, Phase::TurnLoop));
    world.poll().unwrap();
    assert_eq!(world.opponent_id, Some(PlayerId::new(7)));

    let r = driver.handle_message(FromServer::TurnStart);
    assert!(matches!(r, Ok(None)));
    assert!(matches!(driver.phase, Phase::ActionLoop));

    // The consumer ends the turn; the driver relays it and returns to
    // the turn loop, session still open.
    world.end_turn_clicked().unwrap();
    let r = driver.handle_message(FromServer::WaitingForAction(view(7, 1)));
    assert_eq!(r, Ok(Some(FromClient::ClientAction(ActionEvent::EndTurn))));
    assert!(matches!(driver.phase, Phase::TurnLoop));
}

#[test]
fn scenario_prompt_mid_action_loop() {
    let (mut world, mut driver) = bridged_pair();
    driver.handle_message(FromServer::Hello(PlayerId::new(42))).unwrap();
    driver.handle_message(FromServer::GameStart { opponent_id: PlayerId::new(7) }).unwrap();
    driver.handle_message(FromServer::State(view(7, 0))).unwrap();
    driver.handle_message(FromServer::TurnStart).unwrap();
    assert!(matches!(driver.phase, Phase::ActionLoop));

    let pos = BoardPos::new(PlayerId::new(42), RowId::FrontRow, 2);
    world.reply_to_prompt(pos).unwrap();
    let r = driver.handle_message(FromServer::Prompt(PromptKind::Slot, view(7, 2)));
    assert_eq!(r, Ok(Some(FromClient::PromptResponse(PromptAnswer::Slot(pos)))));
    // The driver stays in the action loop awaiting the next message.
    assert!(matches!(driver.phase, Phase::ActionLoop));
}

#[test]
fn scenario_consumer_endpoint_dropped() {
    let (world, mut driver) = bridged_pair();
    driver.handle_message(FromServer::Hello(PlayerId::new(42))).unwrap();
    driver.handle_message(FromServer::GameStart { opponent_id: PlayerId::new(7) }).unwrap();
    driver.handle_message(FromServer::State(view(7, 0))).unwrap();
    driver.handle_message(FromServer::TurnStart).unwrap();

    // The consumer goes away while the driver would block on the next
    // action: the session terminates in an orderly way, no panic.
    drop(world);
    let r = driver.handle_message(FromServer::WaitingForAction(view(7, 1)));
    assert_eq!(r, Err(SessionError::BusDisconnected));
}

#[test]
fn scenario_unexpected_prompt_is_violation() {
    let (_world, mut driver) = bridged_pair();
    driver.handle_message(FromServer::Hello(PlayerId::new(42))).unwrap();
    assert!(matches!(driver.phase, Phase::AwaitGameStart));

    // A prompt while awaiting the game start is never answered.
    let r = driver.handle_message(FromServer::Prompt(PromptKind::Slot, view(7, 0)));
    assert_eq!(
        r,
        Err(SessionError::ProtocolViolation {
            phase: Phase::AwaitGameStart,
            received: FromServerKind::Prompt,
        })
    );
    // The driver did not transition.
    assert!(matches!(driver.phase, Phase::AwaitGameStart));
}

#[test]
fn automated_agent_always_ends_turn() {
    let mut driver = Driver::new(Agent::new_automated());
    driver.handle_message(FromServer::Hello(PlayerId::new(3))).unwrap();
    driver.handle_message(FromServer::GameStart { opponent_id: PlayerId::new(4) }).unwrap();
    driver.handle_message(FromServer::State(view(4, 0))).unwrap();
    driver.handle_message(FromServer::TurnStart).unwrap();
    let r = driver.handle_message(FromServer::WaitingForAction(view(4, 1)));
    assert_eq!(r, Ok(Some(FromClient::ClientAction(ActionEvent::EndTurn))));
    assert!(matches!(driver.phase, Phase::TurnLoop));
}

#[test]
fn automated_agent_answers_prompt_with_default_position() {
    let mut driver = Driver::new(Agent::new_automated());
    driver.handle_message(FromServer::Hello(PlayerId::new(3))).unwrap();
    driver.handle_message(FromServer::GameStart { opponent_id: PlayerId::new(4) }).unwrap();
    driver.handle_message(FromServer::State(view(4, 0))).unwrap();
    driver.handle_message(FromServer::TurnStart).unwrap();
    let r = driver.handle_message(FromServer::Prompt(PromptKind::OpponentSlot, view(4, 1)));
    let expected = PromptAnswer::OpponentSlot(BoardPos::new(PlayerId::new(3), RowId::BackRow, 0));
    assert_eq!(r, Ok(Some(FromClient::PromptResponse(expected))));
}

#[test]
fn every_phase_rejects_messages_outside_its_accepted_set() {
    // Await hello: anything but a hello is fatal.
    let (_w1, mut d1) = bridged_pair();
    let r = d1.handle_message(FromServer::TurnStart);
    assert_eq!(
        r,
        Err(SessionError::ProtocolViolation {
            phase: Phase::AwaitHello,
            received: FromServerKind::TurnStart,
        })
    );

    // Await game start: a second hello is fatal.
    let (_w2, mut d2) = bridged_pair();
    d2.handle_message(FromServer::Hello(PlayerId::new(1))).unwrap();
    let r = d2.handle_message(FromServer::Hello(PlayerId::new(2)));
    assert_eq!(
        r,
        Err(SessionError::ProtocolViolation {
            phase: Phase::AwaitGameStart,
            received: FromServerKind::Hello,
        })
    );

    // Await initial state: a turn start is fatal.
    let (_w3, mut d3) = bridged_pair();
    d3.handle_message(FromServer::Hello(PlayerId::new(1))).unwrap();
    d3.handle_message(FromServer::GameStart { opponent_id: PlayerId::new(2) }).unwrap();
    let r = d3.handle_message(FromServer::TurnStart);
    assert_eq!(
        r,
        Err(SessionError::ProtocolViolation {
            phase: Phase::AwaitInitialState,
            received: FromServerKind::TurnStart,
        })
    );

    // Turn loop: a waiting-for-action outside a turn is fatal.
    let (_w4, mut d4) = bridged_pair();
    d4.handle_message(FromServer::Hello(PlayerId::new(1))).unwrap();
    d4.handle_message(FromServer::GameStart { opponent_id: PlayerId::new(2) }).unwrap();
    d4.handle_message(FromServer::State(view(2, 0))).unwrap();
    let r = d4.handle_message(FromServer::WaitingForAction(view(2, 1)));
    assert_eq!(
        r,
        Err(SessionError::ProtocolViolation {
            phase: Phase::TurnLoop,
            received: FromServerKind::WaitingForAction,
        })
    );

    // Action loop: a game start mid-turn is fatal.
    let (_w5, mut d5) = bridged_pair();
    d5.handle_message(FromServer::Hello(PlayerId::new(1))).unwrap();
    d5.handle_message(FromServer::GameStart { opponent_id: PlayerId::new(2) }).unwrap();
    d5.handle_message(FromServer::State(view(2, 0))).unwrap();
    d5.handle_message(FromServer::TurnStart).unwrap();
    let r = d5.handle_message(FromServer::GameStart { opponent_id: PlayerId::new(9) });
    assert_eq!(
        r,
        Err(SessionError::ProtocolViolation {
            phase: Phase::ActionLoop,
            received: FromServerKind::GameStart,
        })
    );
}

#[test]
fn state_update_mid_loops_changes_nothing_and_is_forwarded() {
    let (mut world, mut driver) = bridged_pair();
    driver.handle_message(FromServer::Hello(PlayerId::new(42))).unwrap();
    driver.handle_message(FromServer::GameStart { opponent_id: PlayerId::new(7) }).unwrap();
    driver.handle_message(FromServer::State(view(7, 0))).unwrap();

    // The same snapshot twice in the turn loop: the driver is
    // unchanged both times, and both copies reach the consumer.
    let before = (driver.phase, driver.my_id, driver.opponent_id);
    let r = driver.handle_message(FromServer::State(view(7, 5)));
    assert!(matches!(r, Ok(None)));
    let r = driver.handle_message(FromServer::State(view(7, 5)));
    assert!(matches!(r, Ok(None)));
    assert_eq!(before, (driver.phase, driver.my_id, driver.opponent_id));

    world.poll().unwrap();
    world.poll().unwrap();
    world.poll().unwrap();
    let world_before = (world.player_id, world.opponent_id, world.player_mana_count);
    world.poll().unwrap();
    assert_eq!(world_before, (world.player_id, world.opponent_id, world.player_mana_count));
}

#[test]
fn summon_intent_reaches_the_wire_with_chosen_position() {
    let (mut world, mut driver) = bridged_pair();
    driver.handle_message(FromServer::Hello(PlayerId::new(42))).unwrap();
    driver.handle_message(FromServer::GameStart { opponent_id: PlayerId::new(7) }).unwrap();
    driver.handle_message(FromServer::State(view(7, 0))).unwrap();
    driver.handle_message(FromServer::TurnStart).unwrap();
    world.poll().unwrap();

    let slot = salt_client::board::SlotPos { is_friendly: true, row_id: RowId::BackRow, index: 3 };
    let req = world.summon_request(slot, salt_client::types::CardId::new(77));
    world.send_intent(req).unwrap();

    let r = driver.handle_message(FromServer::WaitingForAction(view(7, 1)));
    let expected = ActionEvent::SummonCreatureFromHand {
        player_id: PlayerId::new(42),
        board_pos: BoardPos::new(PlayerId::new(42), RowId::BackRow, 3),
        card_id: salt_client::types::CardId::new(77),
    };
    assert_eq!(r, Ok(Some(FromClient::ClientAction(expected))));
    // A summon does not end the turn: the driver stays in the action
    // loop.
    assert!(matches!(driver.phase, Phase::ActionLoop));
}

#[test]
fn stale_prompt_reply_never_becomes_an_action() {
    let (mut world, mut driver) = bridged_pair();
    driver.handle_message(FromServer::Hello(PlayerId::new(42))).unwrap();
    driver.handle_message(FromServer::GameStart { opponent_id: PlayerId::new(7) }).unwrap();
    driver.handle_message(FromServer::State(view(7, 0))).unwrap();
    driver.handle_message(FromServer::TurnStart).unwrap();

    // A prompt reply arrives while an action is owed: the driver never
    // guesses an action from it, it ends the session instead.
    world.reply_to_prompt(BoardPos::new(PlayerId::new(42), RowId::BackRow, 0)).unwrap();
    let r = driver.handle_message(FromServer::WaitingForAction(view(7, 1)));
    assert_eq!(r, Err(SessionError::BusDisconnected));
}

#[test]
fn intent_dispatch_is_exact() {
    let me = PlayerId::new(3);
    let pos = BoardPos::new(me, RowId::FrontRow, 1);

    assert_eq!(action_from_intent(FromConsumer::EndTurnAction, me), Ok(ActionEvent::EndTurn));
    let req = FromConsumer::SummonFromHandToSlotRequest { board_pos: pos, card_id: CardId::new(9) };
    assert_eq!(
        action_from_intent(req, me),
        Ok(ActionEvent::SummonCreatureFromHand {
            player_id: me,
            board_pos: pos,
            card_id: CardId::new(9),
        })
    );
    // A prompt reply answers no request for an action.
    assert_eq!(
        action_from_intent(FromConsumer::PromptReply(pos), me),
        Err(SessionError::BusDisconnected)
    );

    assert_eq!(
        answer_from_intent(FromConsumer::PromptReply(pos), PromptKind::PlayerSlot),
        Ok(PromptAnswer::PlayerSlot(pos))
    );
    // An action intent answers no prompt.
    assert_eq!(
        answer_from_intent(FromConsumer::EndTurnAction, PromptKind::Slot),
        Err(SessionError::BusDisconnected)
    );
}

#[test]
fn hello_with_consumer_gone_still_answers_ready() {
    // The id announcement is lost when the consumer is already gone;
    // the driver tolerates that and completes the handshake — the
    // session then ends at its next decision point.
    let (world, mut driver) = bridged_pair();
    drop(world);
    let r = driver.handle_message(FromServer::Hello(PlayerId::new(42)));
    assert!(matches!(r, Ok(Some(FromClient::Ready))));
    assert!(matches!(driver.phase, Phase::AwaitGameStart));
}
