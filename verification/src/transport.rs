//! The transport loop's decisions: what one iteration puts on the wire. The
//! caller owns the socket, the clock and the sleep between iterations; it
//! hands in what it polled and sends what it is told.

use crate::arbiter::{
    payload_of, request_view, slot_view, step, ticked, ActiveCommand, Arbiter, Command, InForce,
    Tick,
};
use crate::heartbeat::Heartbeat;
use vstd::prelude::*;

verus! {

/// The auxiliary keepalive datagram.
pub const AUXILIARY_KEEPALIVE: [u8; 2] = [0x01, 0x01];

/// Milliseconds between two auxiliary keepalives.
pub const AUXILIARY_INTERVAL: u64 = 1000;

/// What one iteration sends to the control endpoint: the heartbeat, and
/// after it the auxiliary keepalive when one is due.
#[derive(Debug, Clone, Copy, PartialEq, Eq)]
pub struct Transmission {
    pub payload: Heartbeat,
    pub auxiliary: bool,
}

/// The state that the transport loop carries from one iteration to the
/// next.
#[derive(Debug, Clone, Copy, PartialEq, Eq)]
pub struct TransportLoop {
    arbiter: Arbiter,
    last_auxiliary: u64,
}

/// An auxiliary keepalive is due once a full interval has gone by since the
/// last one.
pub open spec fn auxiliary_due(last: int, now: int) -> bool {
    now - last >= AUXILIARY_INTERVAL
}

/// The request that one iteration hands to the arbiter when several are
/// pending: the one received last. The others are dropped.
pub open spec fn latest(pending: Seq<Command>) -> Option<Command> {
    if pending.len() == 0 {
        None
    } else {
        Some(pending.last())
    }
}

/// Collapses the requests that are pending at one iteration to the one
/// received last.
pub fn latest_request(pending: &Vec<Command>) -> (request: Option<Command>)
    ensures
        request == latest(pending@),
{
    if pending.len() == 0 {
        None
    } else {
        Some(pending[pending.len() - 1])
    }
}

impl TransportLoop {
    /// The payload sent while no command is in force.
    pub closed spec fn standby(&self) -> Heartbeat {
        self.arbiter.standby()
    }

    /// The command that stands in the slot, if any.
    pub closed spec fn current(&self) -> Option<ActiveCommand> {
        self.arbiter.current()
    }

    /// The command in force as the rules see it.
    pub open spec fn slot(&self) -> Option<InForce> {
        slot_view(self.current())
    }

    /// The time at which the auxiliary timer was last reset.
    pub closed spec fn last_auxiliary(&self) -> u64 {
        self.last_auxiliary
    }

    /// A loop that starts at `now` with an empty slot. The auxiliary timer
    /// starts with it.
    pub fn new(standby: Heartbeat, now: u64) -> (transport: TransportLoop)
        ensures
            transport.current() is None,
            transport.standby() == standby,
            transport.last_auxiliary() == now,
    {
        TransportLoop { arbiter: Arbiter::new(standby), last_auxiliary: now }
    }

    /// The arbitration state.
    pub fn arbiter(&self) -> (arbiter: Arbiter)
        ensures
            arbiter.current() == self.current(),
            arbiter.standby() == self.standby(),
    {
        self.arbiter
    }

    /// One iteration at time `now`. With the running flag down nothing is
    /// sent and nothing changes. Otherwise the polled request goes to the
    /// arbiter, the expiry check runs, and the payload then current is
    /// sent, with the auxiliary keepalive behind it when one is due.
    pub fn tick(&mut self, running: bool, request: Option<Command>, now: u64) -> (sent: Option<
        Transmission,
    >)
        ensures
            final(self).standby() == old(self).standby(),
            !running ==> sent is None && *final(self) == *old(self),
            running ==> sent is Some,
            running ==> final(self).current() == ticked(old(self).current(), request, now),
            running ==> final(self).slot() == step(
                old(self).slot(),
                Tick { now: now as int, request: request_view(request) },
            ),
            running ==> sent->0.payload == match final(self).current() {
                Some(active) => active.payload,
                None => old(self).standby(),
            },
            running ==> sent->0.payload@ == payload_of(final(self).slot(), old(self).standby()@),
            running ==> sent->0.auxiliary == auxiliary_due(
                old(self).last_auxiliary() as int,
                now as int,
            ),
            running ==> final(self).last_auxiliary() == if sent->0.auxiliary {
                now
            } else {
                old(self).last_auxiliary()
            },
    {
        if !running {
            return None;
        }
        let payload = self.arbiter.tick(request, now);
        let auxiliary = now >= self.last_auxiliary && now - self.last_auxiliary
            >= AUXILIARY_INTERVAL;
        if auxiliary {
            self.last_auxiliary = now;
        }
        Some(Transmission { payload, auxiliary })
    }
}

} // verus!
