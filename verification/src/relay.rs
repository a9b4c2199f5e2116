//! The media relay's decisions. The relay listens on two local ports: on
//! the media port, whose datagrams it passes on unchanged to the local
//! player, and on the feedback port, which it only drains. The caller owns
//! the sockets; it reports what each bounded wait came back with and does
//! what it is told.

use vstd::prelude::*;

verus! {

/// The datagram that asks the remote side to start the stream. It goes to
/// the remote media endpoint once, when the relay starts.
pub const INIT_DATAGRAM: [u8; 12] = [0x80, 0, 0, 0, 0, 0, 0, 0, 0, 0, 0, 0];

/// The local port on which something was awaited.
#[derive(Debug, Clone, Copy, PartialEq, Eq)]
pub enum Port {
    /// The port on which the media arrives.
    Media,
    /// The port on which control feedback arrives.
    Feedback,
}

/// What a bounded wait on a port came back with.
#[derive(Debug, PartialEq, Eq)]
pub enum Received {
    /// A datagram, with its bytes.
    Datagram(Vec<u8>),
    /// Nothing arrived in time.
    TimedOut,
    /// The receive failed.
    Failed,
}

/// Why the relay stopped.
#[derive(Debug, Clone, Copy, PartialEq, Eq)]
pub enum StopReason {
    /// The running flag went down.
    Shutdown,
    /// A receive on the given port failed.
    ReceiveFailed(Port),
}

/// Whether the relay is at work.
#[derive(Debug, Clone, Copy, PartialEq, Eq)]
pub enum RelayState {
    Relaying,
    Stopped(StopReason),
}

/// What the caller is to do with what it received.
#[derive(Debug, PartialEq, Eq)]
pub enum RelayAction {
    /// Send these bytes to the local player.
    Forward(Vec<u8>),
    /// Send nothing and go on.
    Continue,
    /// Leave the loop.
    Stop(StopReason),
}

/// What was received, as the rules see it.
pub enum ReceivedView {
    Datagram(Seq<u8>),
    TimedOut,
    Failed,
}

/// An action as the rules see it.
pub enum ActionView {
    Forward(Seq<u8>),
    Continue,
    Stop(StopReason),
}

impl View for Received {
    type V = ReceivedView;

    open spec fn view(&self) -> ReceivedView {
        match self {
            Received::Datagram(bytes) => ReceivedView::Datagram(bytes@),
            Received::TimedOut => ReceivedView::TimedOut,
            Received::Failed => ReceivedView::Failed,
        }
    }
}

impl View for RelayAction {
    type V = ActionView;

    open spec fn view(&self) -> ActionView {
        match self {
            RelayAction::Forward(bytes) => ActionView::Forward(bytes@),
            RelayAction::Continue => ActionView::Continue,
            RelayAction::Stop(reason) => ActionView::Stop(*reason),
        }
    }
}

/// The state after the running flag has been looked at: a relay at work
/// stops when the flag is down.
pub open spec fn observe(state: RelayState, running: bool) -> RelayState {
    match state {
        RelayState::Relaying => if running {
            RelayState::Relaying
        } else {
            RelayState::Stopped(StopReason::Shutdown)
        },
        RelayState::Stopped(reason) => state,
    }
}

/// The state after a wait on `port` came back with `received`: only a
/// failed receive changes it.
pub open spec fn next_state(state: RelayState, port: Port, received: ReceivedView) -> RelayState {
    match state {
        RelayState::Relaying => match received {
            ReceivedView::Failed => RelayState::Stopped(StopReason::ReceiveFailed(port)),
            _ => RelayState::Relaying,
        },
        RelayState::Stopped(reason) => state,
    }
}

/// What to do when a wait on `port` came back with `received`. A datagram
/// from the media port is forwarded as it is; one from the feedback port is
/// dropped; a timeout is nothing; a failed receive stops the relay. A relay
/// that has stopped stays stopped and forwards nothing.
pub open spec fn action(state: RelayState, port: Port, received: ReceivedView) -> ActionView {
    match state {
        RelayState::Relaying => match received {
            ReceivedView::Datagram(bytes) => match port {
                Port::Media => ActionView::Forward(bytes),
                Port::Feedback => ActionView::Continue,
            },
            ReceivedView::TimedOut => ActionView::Continue,
            ReceivedView::Failed => ActionView::Stop(StopReason::ReceiveFailed(port)),
        },
        RelayState::Stopped(reason) => ActionView::Stop(reason),
    }
}

/// The relay's state between two waits.
#[derive(Debug)]
pub struct Relay {
    state: RelayState,
}

impl View for Relay {
    type V = RelayState;

    closed spec fn view(&self) -> RelayState {
        self.state
    }
}

impl Relay {
    /// Starts the relay. The datagram that comes with it is to be sent to
    /// the remote media endpoint before the first wait.
    pub fn start() -> (started: (Relay, [u8; 12]))
        ensures
            started.0@ == RelayState::Relaying,
            started.1@ == INIT_DATAGRAM@,
    {
        (Relay { state: RelayState::Relaying }, INIT_DATAGRAM)
    }

    /// Whether the relay is at work, or why it is not.
    pub fn state(&self) -> (state: RelayState)
        ensures
            state == self@,
    {
        self.state
    }

    /// Looks at the running flag, as every iteration does before it waits.
    /// Returns whether the relay goes on.
    pub fn proceed(&mut self, running: bool) -> (go: bool)
        ensures
            final(self)@ == observe(old(self)@, running),
            go == (final(self)@ == RelayState::Relaying),
    {
        match self.state {
            RelayState::Relaying => {
                if !running {
                    self.state = RelayState::Stopped(StopReason::Shutdown);
                }
                running
            },
            RelayState::Stopped(_) => false,
        }
    }

    /// Takes what a wait on `port` came back with and says what to do.
    pub fn handle(&mut self, port: Port, received: Received) -> (todo: RelayAction)
        ensures
            final(self)@ == next_state(old(self)@, port, received@),
            todo@ == action(old(self)@, port, received@),
    {
        match self.state {
            RelayState::Relaying => match received {
                Received::Datagram(bytes) => match port {
                    Port::Media => RelayAction::Forward(bytes),
                    Port::Feedback => RelayAction::Continue,
                },
                Received::TimedOut => RelayAction::Continue,
                Received::Failed => {
                    let reason = StopReason::ReceiveFailed(port);
                    self.state = RelayState::Stopped(reason);
                    RelayAction::Stop(reason)
                },
            },
            RelayState::Stopped(reason) => RelayAction::Stop(reason),
        }
    }
}

/// While the relay is at work, every datagram from the media port is
/// forwarded byte for byte, and the relay stays at work.
pub proof fn lemma_media_is_forwarded(bytes: Seq<u8>)
    ensures
        action(RelayState::Relaying, Port::Media, ReceivedView::Datagram(bytes))
            == ActionView::Forward(bytes),
        next_state(RelayState::Relaying, Port::Media, ReceivedView::Datagram(bytes))
            == RelayState::Relaying,
{
}

/// Nothing that arrives on the feedback port is ever forwarded, and no
/// datagram that arrives there stops the relay.
pub proof fn lemma_feedback_is_drained(state: RelayState, received: ReceivedView)
    ensures
        !(action(state, Port::Feedback, received) is Forward),
        received is Datagram ==> next_state(state, Port::Feedback, received) == state,
        received is Datagram && state == RelayState::Relaying ==> action(
            state,
            Port::Feedback,
            received,
        ) == ActionView::Continue,
{
}

/// Only what arrived on the media port is ever forwarded, and then
/// unchanged.
pub proof fn lemma_forward_only_media(state: RelayState, port: Port, received: ReceivedView)
    requires
        action(state, port, received) is Forward,
    ensures
        state == RelayState::Relaying,
        port == Port::Media,
        received == ReceivedView::Datagram(action(state, port, received)->Forward_0),
{
}

/// A relay that has stopped stays stopped, whatever arrives and whatever
/// the running flag says.
pub proof fn lemma_stopped_is_final(
    reason: StopReason,
    running: bool,
    port: Port,
    received: ReceivedView,
)
    ensures
        observe(RelayState::Stopped(reason), running) == RelayState::Stopped(reason),
        next_state(RelayState::Stopped(reason), port, received) == RelayState::Stopped(reason),
        action(RelayState::Stopped(reason), port, received) == ActionView::Stop(reason),
{
}

} // verus!
