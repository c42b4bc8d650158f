//! The failure taxonomy of a session.
//!
//! A session ends for one of two reasons that this core can itself
//! detect: the server spoke outside the protocol, or the bus peer went
//! away. Wire-level I/O failures are detected by the embedding
//! application, which owns the transport.

use vstd::prelude::*;
use crate::driver::Phase;
use crate::messages::FromServerKind;

verus! {

/// Why a session ended, as the driver reports it.
#[derive(Clone, Copy, Debug, PartialEq, Eq, Structural)]
pub enum SessionError {
    /// A message arrived outside its state's accepted set. Fatal: the
    /// session is not resumable and the driver never retries it.
    ProtocolViolation { phase: Phase, received: FromServerKind },
    /// The peer endpoint of the bus was dropped: orderly termination of
    /// the session, not an application crash.
    BusDisconnected,
}

} // verus!
