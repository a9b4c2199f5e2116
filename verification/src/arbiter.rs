//! Command arbitration: at most one command is in force at a time. A new
//! request takes over when its priority is at least that of the command in
//! force; a command in force is cleared once its time is up.

use crate::heartbeat::Heartbeat;
use vstd::prelude::*;

verus! {

/// A request to put a payload on the wire for some time. Times are in
/// milliseconds.
#[derive(Debug, Clone, Copy, PartialEq, Eq)]
pub struct Command {
    pub payload: Heartbeat,
    pub duration: u64,
    pub priority: u32,
}

/// A command that has been installed: the payload being sent, when it was
/// installed and for how long it stays.
#[derive(Debug, Clone, Copy, PartialEq, Eq)]
pub struct ActiveCommand {
    pub payload: Heartbeat,
    pub installed_at: u64,
    pub duration: u64,
    pub priority: u32,
}

/// What the arbiter holds for a command in force: its payload, the instant
/// at which it lapses and its priority.
pub struct InForce {
    pub payload: Seq<u8>,
    pub expiry: int,
    pub priority: int,
}

/// A request as the rules see it.
pub struct Request {
    pub payload: Seq<u8>,
    pub duration: int,
    pub priority: int,
}

/// One tick of the clock: the time, and the request polled at that tick, if
/// there was one.
pub struct Tick {
    pub now: int,
    pub request: Option<Request>,
}

impl View for Command {
    type V = Request;

    open spec fn view(&self) -> Request {
        Request {
            payload: self.payload@,
            duration: self.duration as int,
            priority: self.priority as int,
        }
    }
}

impl View for ActiveCommand {
    type V = InForce;

    open spec fn view(&self) -> InForce {
        InForce {
            payload: self.payload@,
            expiry: self.installed_at + self.duration,
            priority: self.priority as int,
        }
    }
}

/// The slot's contents as the rules see them.
pub open spec fn slot_view(slot: Option<ActiveCommand>) -> Option<InForce> {
    match slot {
        Some(active) => Some(active@),
        None => None,
    }
}

/// What a request becomes when it is installed at `now`.
pub open spec fn installed(request: Request, now: int) -> InForce {
    InForce {
        payload: request.payload,
        expiry: now + request.duration,
        priority: request.priority,
    }
}

/// A request is let in when the slot is empty or holds a command of no
/// higher priority.
pub open spec fn admits(slot: Option<InForce>, request: Request) -> bool {
    match slot {
        Some(active) => request.priority >= active.priority,
        None => true,
    }
}

/// The slot after a request has been offered at `now`.
pub open spec fn offer(slot: Option<InForce>, request: Request, now: int) -> Option<InForce> {
    if admits(slot, request) {
        Some(installed(request, now))
    } else {
        slot
    }
}

/// The slot after the expiry check at `now`.
pub open spec fn expire(slot: Option<InForce>, now: int) -> Option<InForce> {
    match slot {
        Some(active) => if now >= active.expiry {
            None
        } else {
            slot
        },
        None => None,
    }
}

/// One tick: the polled request is offered, then the expiry check runs.
pub open spec fn step(slot: Option<InForce>, tick: Tick) -> Option<InForce> {
    match tick.request {
        Some(request) => expire(offer(slot, request, tick.now), tick.now),
        None => expire(slot, tick.now),
    }
}

/// The payload to transmit: that of the command in force, else standby.
pub open spec fn payload_of(slot: Option<InForce>, standby: Seq<u8>) -> Seq<u8> {
    match slot {
        Some(active) => active.payload,
        None => standby,
    }
}

impl ActiveCommand {
    /// Whether the command has lapsed at `now`.
    pub fn is_expired(&self, now: u64) -> (expired: bool)
        ensures
            expired == (now >= self@.expiry),
    {
        now >= self.installed_at && now - self.installed_at >= self.duration
    }
}

/// The command that stands in the slot once `command` has been offered at
/// `now`: the new one, installed at `now`, where it is let in, else the one
/// that stood there.
pub open spec fn submitted(current: Option<ActiveCommand>, command: Command, now: u64) -> Option<
    ActiveCommand,
> {
    if admits(slot_view(current), command@) {
        Some(
            ActiveCommand {
                payload: command.payload,
                installed_at: now,
                duration: command.duration,
                priority: command.priority,
            },
        )
    } else {
        current
    }
}

/// The command that stands in the slot after the expiry check at `now`.
pub open spec fn unexpired(current: Option<ActiveCommand>, now: u64) -> Option<ActiveCommand> {
    match current {
        Some(active) => if now >= active@.expiry {
            None
        } else {
            current
        },
        None => None,
    }
}

/// The command that stands in the slot after one tick at `now`.
pub open spec fn ticked(current: Option<ActiveCommand>, request: Option<Command>, now: u64)
    -> Option<ActiveCommand> {
    match request {
        Some(command) => unexpired(submitted(current, command, now), now),
        None => unexpired(current, now),
    }
}

/// What `submitted`, `unexpired` and `ticked` do to the slot is what
/// `offer`, `expire` and `step` say of it.
pub proof fn lemma_views_agree(current: Option<ActiveCommand>, request: Option<Command>, now: u64)
    ensures
        request matches Some(command) ==> slot_view(submitted(current, command, now)) == offer(
            slot_view(current),
            command@,
            now as int,
        ),
        slot_view(unexpired(current, now)) == expire(slot_view(current), now as int),
        slot_view(ticked(current, request, now)) == step(
            slot_view(current),
            Tick { now: now as int, request: request_view(request) },
        ),
{
}

/// The arbitration state: the standby payload and the slot for the command
/// in force.
#[derive(Debug, Clone, Copy, PartialEq, Eq)]
pub struct Arbiter {
    standby: Heartbeat,
    current: Option<ActiveCommand>,
}

impl Arbiter {
    /// The payload sent while no command is in force.
    pub closed spec fn standby(&self) -> Heartbeat {
        self.standby
    }

    /// The command that stands in the slot, if any.
    pub closed spec fn current(&self) -> Option<ActiveCommand> {
        self.current
    }

    /// The command in force as the rules see it.
    pub open spec fn slot(&self) -> Option<InForce> {
        slot_view(self.current())
    }

    /// An arbiter with an empty slot.
    pub fn new(standby: Heartbeat) -> (arbiter: Arbiter)
        ensures
            arbiter.current() is None,
            arbiter.standby() == standby,
    {
        Arbiter { standby, current: None }
    }

    /// The command in force, if any.
    pub fn active(&self) -> (current: Option<ActiveCommand>)
        ensures
            current == self.current(),
    {
        self.current
    }

    /// Offers a request at `now`. Returns whether it was installed; a
    /// request that is not installed is dropped.
    pub fn submit(&mut self, command: Command, now: u64) -> (accepted: bool)
        ensures
            accepted == admits(old(self).slot(), command@),
            final(self).current() == submitted(old(self).current(), command, now),
            final(self).slot() == offer(old(self).slot(), command@, now as int),
            final(self).standby() == old(self).standby(),
    {
        let accepted = match &self.current {
            Some(active) => command.priority >= active.priority,
            None => true,
        };
        if accepted {
            self.current = Some(
                ActiveCommand {
                    payload: command.payload,
                    installed_at: now,
                    duration: command.duration,
                    priority: command.priority,
                },
            );
        }
        accepted
    }

    /// Runs the expiry check at `now`. Returns whether a command was
    /// cleared.
    pub fn expire(&mut self, now: u64) -> (cleared: bool)
        ensures
            final(self).current() == unexpired(old(self).current(), now),
            final(self).slot() == expire(old(self).slot(), now as int),
            cleared == (old(self).current() is Some && final(self).current() is None),
            final(self).standby() == old(self).standby(),
    {
        let lapsed = match &self.current {
            Some(active) => active.is_expired(now),
            None => false,
        };
        if lapsed {
            self.current = None;
        }
        lapsed
    }

    /// The payload to transmit now.
    pub fn current_payload(&self) -> (payload: Heartbeat)
        ensures
            payload == match self.current() {
                Some(active) => active.payload,
                None => self.standby(),
            },
            payload@ == payload_of(self.slot(), self.standby()@),
    {
        match &self.current {
            Some(active) => active.payload,
            None => self.standby,
        }
    }

    /// One whole tick: offers the polled request, runs the expiry check and
    /// returns the payload to transmit.
    pub fn tick(&mut self, request: Option<Command>, now: u64) -> (payload: Heartbeat)
        ensures
            final(self).current() == ticked(old(self).current(), request, now),
            final(self).slot() == step(
                old(self).slot(),
                Tick { now: now as int, request: request_view(request) },
            ),
            payload == match final(self).current() {
                Some(active) => active.payload,
                None => old(self).standby(),
            },
            payload@ == payload_of(final(self).slot(), old(self).standby()@),
            final(self).standby() == old(self).standby(),
    {
        if let Some(command) = request {
            self.submit(command, now);
        }
        self.expire(now);
        self.current_payload()
    }
}

/// The polled request as the rules see it.
pub open spec fn request_view(request: Option<Command>) -> Option<Request> {
    match request {
        Some(command) => Some(command@),
        None => None,
    }
}

} // verus!
