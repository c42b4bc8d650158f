//! The channel bus observed at run time: ordering, closure, and the
//! notifier.

use salt_client::agent::Agent;
use salt_client::bus::{create_channel, TryRecv};
use salt_client::errors::SessionError;
use salt_client::messages::{FromConsumer, ToConsumer};
use salt_client::notifier::Notifier;
use salt_client::types::{BoardPos, CardId, ClientEventView, PlayerId, RowId};

fn pos(index: usize) -> BoardPos {
    BoardPos::new(PlayerId::new(1), RowId::FrontRow, index)
}

#[test]
fn fifo_order_within_one_direction() {
    let (mut consumer_end, network_end) = create_channel::<FromConsumer, ToConsumer>();
    for i in 0..5usize {
        consumer_end.send(FromConsumer::PromptReply(pos(i))).unwrap();
    }
    for i in 0..5usize {
        let got = network_end.recv().unwrap();
        assert_eq!(got, FromConsumer::PromptReply(pos(i)));
    }
}

#[test]
fn fifo_order_survives_interleaving_with_opposite_direction() {
    let (mut consumer_end, mut network_end) = create_channel::<FromConsumer, ToConsumer>();
    for i in 0..4usize {
        consumer_end.send(FromConsumer::PromptReply(pos(i))).unwrap();
        network_end.send(ToConsumer::PlayerIdSet(PlayerId::new(i as u64))).unwrap();
    }
    // Each direction delivers its own sends in send order, however the
    // other direction interleaved.
    for i in 0..4usize {
        assert_eq!(network_end.recv().unwrap(), FromConsumer::PromptReply(pos(i)));
    }
    for i in 0..4usize {
        match consumer_end.try_recv() {
            TryRecv::Message(m) => assert_eq!(m, ToConsumer::PlayerIdSet(PlayerId::new(i as u64))),
            _ => panic!("expected a queued message"),
        }
    }
}

#[test]
fn try_recv_reports_empty_then_closed() {
    let (consumer_end, mut network_end) = create_channel::<FromConsumer, ToConsumer>();
    assert!(matches!(consumer_end.try_recv(), TryRecv::Empty));
    network_end.send(ToConsumer::PlayerIdSet(PlayerId::new(9))).unwrap();
    drop(network_end);
    // The queued message is still delivered after the peer is gone...
    assert!(matches!(consumer_end.try_recv(), TryRecv::Message(_)));
    // ...and only then is the channel reported closed.
    assert!(matches!(consumer_end.try_recv(), TryRecv::Closed));
}

#[test]
fn send_to_dropped_peer_reports_disconnection() {
    let (mut consumer_end, network_end) = create_channel::<FromConsumer, ToConsumer>();
    drop(network_end);
    let r = consumer_end.send(FromConsumer::EndTurnAction);
    assert_eq!(r, Err(SessionError::BusDisconnected));
}

#[test]
fn bridged_notifier_pushes_events_to_the_consumer() {
    let (consumer_end, network_end) = create_channel::<FromConsumer, ToConsumer>();
    let agent = Agent::new_bridged(network_end);
    let mut notifier = agent.make_notifier();
    let event = ClientEventView::SummonCreatureFromHand {
        player_id: PlayerId::new(1),
        board_pos: pos(0),
        card_id: CardId::new(5),
    };
    notifier.notify(event.clone()).unwrap();
    match consumer_end.try_recv() {
        TryRecv::Message(ToConsumer::ClientEvent(got)) => assert_eq!(got, event),
        _ => panic!("expected the notified event"),
    }
}

#[test]
fn null_notifier_discards_events() {
    let agent = Agent::new_automated();
    let mut notifier = agent.make_notifier();
    assert!(matches!(notifier, Notifier::Null));
    let event = ClientEventView::TurnEnded(PlayerId::new(1));
    assert_eq!(notifier.notify(event), Ok(()));
}

#[test]
fn notifier_survives_as_second_sender() {
    // The notifier is a second handle into the same direction: closing
    // the agent's endpoint alone does not close the bus for it.
    let (consumer_end, network_end) = create_channel::<FromConsumer, ToConsumer>();
    let agent = Agent::new_bridged(network_end);
    let mut notifier = agent.make_notifier();
    drop(agent);
    notifier.notify(ClientEventView::TurnEnded(PlayerId::new(1))).unwrap();
    assert!(matches!(consumer_end.try_recv(), TryRecv::Message(ToConsumer::ClientEvent(_))));
}
