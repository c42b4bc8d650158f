//! The notifier: a write-only sink the rules engine uses to push
//! out-of-band events to the consumer, independent of the
//! request/response turn loop.

use vstd::prelude::*;
use crate::bus::SendHandle;
use crate::errors::SessionError;
use crate::messages::ToConsumer;
use crate::types::ClientEventView;

verus! {

/// One write-only sink per session, created by the agent and owned by
/// whoever runs the rules engine callbacks.
pub enum Notifier {
    /// Discards every event: the sink of the automated agent.
    Null,
    /// Pushes every event into the bus's to-consumer queue, through a
    /// sending handle of its own.
    Bus(SendHandle<ToConsumer>),
}

impl Notifier {
    /// Everything this sink has put on the bus, oldest first; the
    /// discarding sink never puts anything.
    pub open spec fn sent(self) -> Seq<ToConsumer> {
        match self {
            Notifier::Null => Seq::empty(),
            Notifier::Bus(h) => h.log@,
        }
    }

    /// Pushes an out-of-band event towards the consumer without
    /// blocking: on success exactly `ClientEvent(event)` is appended
    /// to the sink's send log, unmodified. The push fails only when
    /// the sink feeds the bus and the consumer endpoint is gone, and
    /// then nothing was enqueued.
    pub fn notify(&mut self, event: ClientEventView) -> (r: Result<(), SessionError>)
        ensures
            *old(self) is Null ==> r == Ok::<(), SessionError>(()) && *final(self) == *old(self),
            *old(self) matches Notifier::Bus(h) ==> (r is Ok ==> (*final(self)
                matches Notifier::Bus(h2) && h2.inner == h.inner && h2.log@ == h.log@.push(
                ToConsumer::ClientEvent(event),
            ))),
            r matches Err(e) ==> e == SessionError::BusDisconnected && *old(self) is Bus
                && *final(self) == *old(self),
    {
        match self {
            Notifier::Null => Ok(()),
            Notifier::Bus(h) => h.send(ToConsumer::ClientEvent(event)),
        }
    }
}

} // verus!
