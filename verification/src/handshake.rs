//! The session-setup exchange: four requests, one at a time, each followed
//! by one response. Only the response to `SETUP` is read for content: it
//! names the port from which the media will come, and the session to play.
//!
//! The exchange is a state machine that never touches the connection. The
//! caller sends what a step hands out and feeds each response back in.

use crate::decimal::{decimal_text, parse_port, parse_u16, push_decimal};
use crate::text::{
    after, before, chars_of, find_char, find_field, find_line, find_word, first_field_with,
    first_line_with, nth_word, Span,
};
use vstd::prelude::*;
use vstd::string::{StrSliceExecFns, StringExecFns};

verus! {

/// Where the exchange stands.
#[derive(Debug, Clone, Copy, PartialEq, Eq)]
pub enum HandshakeState {
    /// Nothing has been sent yet.
    Connected,
    /// `OPTIONS` is out, its response is awaited.
    OptionsSent,
    /// `DESCRIBE` is out, its response is awaited.
    DescribeSent,
    /// `SETUP` is out, its response is awaited.
    SetupSent,
    /// The media port is known and `PLAY` is out.
    Negotiated,
    /// The exchange is over and the session stands.
    Playing,
    /// The response to `SETUP` named no port; the exchange is over.
    Failed,
}

/// Why the response to `SETUP` could not be used.
#[derive(Debug, Clone, Copy, PartialEq, Eq)]
pub enum ProtocolError {
    /// No line of the response begins with `Transport:`.
    MissingTransport,
    /// The transport line has no `server_port=` field, or the field names
    /// no port.
    MissingServerPort,
}

/// What the exchange yields: the port from which the media will come, and
/// the session's token.
#[derive(Debug, Clone, PartialEq, Eq)]
pub struct Session {
    pub media_port: u16,
    pub token: String,
}

/// What the caller is to do next.
#[derive(Debug, Clone, PartialEq, Eq)]
pub enum Step {
    /// Send this request, then hand in the response.
    Send(String),
    /// The exchange is complete.
    Established(Session),
    /// The exchange has failed; nothing more is to be sent.
    Failed(ProtocolError),
    /// Nothing to do.
    Idle,
}

/// A step as the rules see it.
pub enum StepView {
    Send(Seq<char>),
    Established(u16, Seq<char>),
    Failed(ProtocolError),
    Idle,
}

impl View for Step {
    type V = StepView;

    open spec fn view(&self) -> StepView {
        match self {
            Step::Send(text) => StepView::Send(text@),
            Step::Established(session) => StepView::Established(
                session.media_port,
                session.token@,
            ),
            Step::Failed(error) => StepView::Failed(*error),
            Step::Idle => StepView::Idle,
        }
    }
}

/// The exchange as the rules see it.
pub struct HandshakeView {
    pub state: HandshakeState,
    pub remote: Seq<char>,
    pub local_port: u16,
    pub media_port: u16,
    pub token: Seq<char>,
}

/// The `OPTIONS` request.
pub open spec fn options_text(remote: Seq<char>) -> Seq<char> {
    "OPTIONS rtsp://"@ + remote
        + "/webcam RTSP/1.0\r\nCSeq: 1\r\nUser-Agent: ijkplayer\r\n\r\n"@
}

/// The `DESCRIBE` request.
pub open spec fn describe_text(remote: Seq<char>) -> Seq<char> {
    "DESCRIBE rtsp://"@ + remote
        + "/webcam RTSP/1.0\r\nAccept: application/sdp\r\nCSeq: 2\r\nUser-Agent: ijkplayer\r\n\r\n"@
}

/// The `SETUP` request: it offers `local_port` for the media and the port
/// after it for the control feedback.
pub open spec fn setup_text(remote: Seq<char>, local_port: u16) -> Seq<char> {
    "SETUP rtsp://"@ + remote
        + "/webcam/track0 RTSP/1.0\r\nTransport: RTP/AVP/UDP;unicast;client_port="@ + decimal_text(
        local_port as nat,
    ) + "-"@ + decimal_text((local_port + 1) as nat)
        + "\r\nCSeq: 3\r\nUser-Agent: ijkplayer\r\n\r\n"@
}

/// The `PLAY` request: it carries the session's token as it was received.
pub open spec fn play_text(remote: Seq<char>, token: Seq<char>) -> Seq<char> {
    "PLAY rtsp://"@ + remote
        + "/webcam RTSP/1.0\r\nRange: npt=0.000-\r\nCSeq: 4\r\nUser-Agent: ijkplayer\r\nSession: "@
        + token + "\r\n\r\n"@
}

/// The port that a transport line names: in its first field that begins
/// with `server_port=`, what stands between the equals sign and the next
/// equals sign or dash.
pub open spec fn port_of_line(line: Seq<char>) -> Option<u16> {
    match first_field_with(line, ';', "server_port="@) {
        Some(field) => match after(field, '=') {
            Some(value) => parse_u16(before(before(value, '='), '-')),
            None => None,
        },
        None => None,
    }
}

/// The media port that a response names, read from its first line that
/// begins with `Transport:`.
pub open spec fn server_port(response: Seq<char>) -> Option<u16> {
    match first_line_with(response, "Transport:"@) {
        Some(line) => port_of_line(line),
        None => None,
    }
}

/// The session token of a response: the second word of its first line that
/// begins with `Session:`, and empty when there is no such line or word.
pub open spec fn session_token(response: Seq<char>) -> Seq<char> {
    match first_line_with(response, "Session:"@) {
        Some(line) => match nth_word(line, 1) {
            Some(word) => word,
            None => Seq::empty(),
        },
        None => Seq::empty(),
    }
}

/// What the response to `SETUP` amounts to: the port and the token, or the
/// reason why there is no port.
pub open spec fn setup_outcome(response: Seq<char>) -> Result<(u16, Seq<char>), ProtocolError> {
    match first_line_with(response, "Transport:"@) {
        Some(line) => match port_of_line(line) {
            Some(port) => Ok((port, session_token(response))),
            None => Err(ProtocolError::MissingServerPort),
        },
        None => Err(ProtocolError::MissingTransport),
    }
}

/// The first move: from `Connected`, `OPTIONS` goes out. In any other
/// state there is nothing to begin.
pub open spec fn begin(h: HandshakeView) -> (HandshakeView, StepView) {
    match h.state {
        HandshakeState::Connected => (
            HandshakeView { state: HandshakeState::OptionsSent, ..h },
            StepView::Send(options_text(h.remote)),
        ),
        _ => (h, StepView::Idle),
    }
}

/// The move on a response. While a response is awaited, it advances the
/// exchange by one state; otherwise it changes nothing.
pub open spec fn receive(h: HandshakeView, response: Seq<char>) -> (HandshakeView, StepView) {
    match h.state {
        HandshakeState::OptionsSent => (
            HandshakeView { state: HandshakeState::DescribeSent, ..h },
            StepView::Send(describe_text(h.remote)),
        ),
        HandshakeState::DescribeSent => (
            HandshakeView { state: HandshakeState::SetupSent, ..h },
            StepView::Send(setup_text(h.remote, h.local_port)),
        ),
        HandshakeState::SetupSent => match setup_outcome(response) {
            Ok((port, token)) => (
                HandshakeView {
                    state: HandshakeState::Negotiated,
                    media_port: port,
                    token: token,
                    ..h
                },
                StepView::Send(play_text(h.remote, token)),
            ),
            Err(error) => (
                HandshakeView { state: HandshakeState::Failed, ..h },
                StepView::Failed(error),
            ),
        },
        HandshakeState::Negotiated => (
            HandshakeView { state: HandshakeState::Playing, ..h },
            StepView::Established(h.media_port, h.token),
        ),
        _ => (h, StepView::Idle),
    }
}

/// Builds the `OPTIONS` request.
pub fn options_request(remote: &str) -> (text: String)
    ensures
        text@ == options_text(remote@),
{
    let mut text = String::from_str("OPTIONS rtsp://");
    text.append(remote);
    text.append("/webcam RTSP/1.0\r\nCSeq: 1\r\nUser-Agent: ijkplayer\r\n\r\n");
    text
}

/// Builds the `DESCRIBE` request.
pub fn describe_request(remote: &str) -> (text: String)
    ensures
        text@ == describe_text(remote@),
{
    let mut text = String::from_str("DESCRIBE rtsp://");
    text.append(remote);
    text.append(
        "/webcam RTSP/1.0\r\nAccept: application/sdp\r\nCSeq: 2\r\nUser-Agent: ijkplayer\r\n\r\n",
    );
    text
}

/// Builds the `SETUP` request for a local port that has a port after it.
pub fn setup_request(remote: &str, local_port: u16) -> (text: String)
    requires
        local_port < u16::MAX,
    ensures
        text@ == setup_text(remote@, local_port),
{
    let mut text = String::from_str("SETUP rtsp://");
    text.append(remote);
    text.append("/webcam/track0 RTSP/1.0\r\nTransport: RTP/AVP/UDP;unicast;client_port=");
    push_decimal(&mut text, local_port);
    text.append("-");
    push_decimal(&mut text, local_port + 1);
    text.append("\r\nCSeq: 3\r\nUser-Agent: ijkplayer\r\n\r\n");
    text
}

/// Builds the `PLAY` request.
pub fn play_request(remote: &str, token: &str) -> (text: String)
    ensures
        text@ == play_text(remote@, token@),
{
    let mut text = String::from_str("PLAY rtsp://");
    text.append(remote);
    text.append(
        "/webcam RTSP/1.0\r\nRange: npt=0.000-\r\nCSeq: 4\r\nUser-Agent: ijkplayer\r\nSession: ",
    );
    text.append(token);
    text.append("\r\n\r\n");
    text
}

/// Reads the port that a transport line names.
fn port_in_line(text: &Vec<char>, line: Span) -> (port: Option<u16>)
    requires
        line.within(text@.len()),
    ensures
        port == port_of_line(line.of(text@)),
{
    let prefix = chars_of("server_port=");
    match find_field(text, line, ';', &prefix) {
        Some(field) => {
            let equals = find_char(text, field, '=');
            if equals == field.end {
                return None;
            }
            let value = Span { start: equals + 1, end: field.end };
            let stop = find_char(text, value, '=');
            let upto = Span { start: value.start, end: stop };
            let dash = find_char(text, upto, '-');
            let digits = Span { start: value.start, end: dash };
            proof {
                let f = field.of(text@);
                assert(after(f, '=') == Some(value.of(text@))) by {
                    assert(f.skip(equals - field.start + 1) =~= value.of(text@));
                }
                assert(before(value.of(text@), '=') =~= upto.of(text@));
                assert(before(upto.of(text@), '-') =~= digits.of(text@));
            }
            parse_port(text, digits)
        },
        None => None,
    }
}

/// Reads the media port out of the response to `SETUP`. A range of ports
/// counts as its first port.
pub fn get_server_port(response: &str) -> (port: Option<u16>)
    ensures
        port == server_port(response@),
{
    let text = chars_of(response);
    let prefix = chars_of("Transport:");
    match find_line(&text, &prefix) {
        Some(line) => port_in_line(&text, line),
        None => None,
    }
}

/// Reads the session token out of the response to `SETUP`.
pub fn get_session_token(response: &str) -> (token: String)
    ensures
        token@ == session_token(response@),
{
    let text = chars_of(response);
    let prefix = chars_of("Session:");
    match find_line(&text, &prefix) {
        Some(line) => match find_word(&text, line, 1) {
            Some(word) => String::from_str(response.substring_char(word.start, word.end)),
            None => String::new(),
        },
        None => String::new(),
    }
}

/// Reads the response to `SETUP`: the session it sets up, or why it sets
/// up none.
pub fn parse_setup_response(response: &str) -> (outcome: Result<Session, ProtocolError>)
    ensures
        match outcome {
            Ok(session) => setup_outcome(response@) == Ok::<(u16, Seq<char>), ProtocolError>(
                (session.media_port, session.token@),
            ),
            Err(error) => setup_outcome(response@) == Err::<(u16, Seq<char>), ProtocolError>(
                error,
            ),
        },
{
    let text = chars_of(response);
    let prefix = chars_of("Transport:");
    match find_line(&text, &prefix) {
        Some(line) => match port_in_line(&text, line) {
            Some(media_port) => Ok(Session { media_port, token: get_session_token(response) }),
            None => Err(ProtocolError::MissingServerPort),
        },
        None => Err(ProtocolError::MissingTransport),
    }
}

/// The exchange with one remote address and one local port.
#[derive(Debug)]
pub struct Handshake {
    state: HandshakeState,
    remote: String,
    local_port: u16,
    media_port: u16,
    token: String,
}

impl View for Handshake {
    type V = HandshakeView;

    closed spec fn view(&self) -> HandshakeView {
        HandshakeView {
            state: self.state,
            remote: self.remote@,
            local_port: self.local_port,
            media_port: self.media_port,
            token: self.token@,
        }
    }
}

impl Handshake {
    /// The local port has a port after it, so that `SETUP` can offer the
    /// pair.
    #[verifier::type_invariant]
    spec fn has_port_pair(self) -> bool {
        self.local_port < u16::MAX
    }

    /// An exchange that has not begun. `remote` is the address put into
    /// each request; `local_port` is offered for the media, and the port
    /// after it for the control feedback.
    pub fn new(remote: &str, local_port: u16) -> (handshake: Handshake)
        requires
            local_port < u16::MAX,
        ensures
            handshake@.state == HandshakeState::Connected,
            handshake@.remote == remote@,
            handshake@.local_port == local_port,
            handshake@.media_port == 0,
            handshake@.token == Seq::<char>::empty(),
    {
        Handshake {
            state: HandshakeState::Connected,
            remote: String::from_str(remote),
            local_port,
            media_port: 0,
            token: String::new(),
        }
    }

    /// Where the exchange stands.
    pub fn state(&self) -> (state: HandshakeState)
        ensures
            state == self@.state,
    {
        self.state
    }

    /// Whether a response is awaited.
    pub fn awaits_response(&self) -> (awaited: bool)
        ensures
            awaited == awaits_response(self@.state),
    {
        match self.state {
            HandshakeState::OptionsSent => true,
            HandshakeState::DescribeSent => true,
            HandshakeState::SetupSent => true,
            HandshakeState::Negotiated => true,
            _ => false,
        }
    }

    /// Begins the exchange: hands out the `OPTIONS` request. Once begun,
    /// there is nothing to begin again.
    pub fn begin(&mut self) -> (step: Step)
        ensures
            final(self)@ == begin(old(self)@).0,
            step@ == begin(old(self)@).1,
    {
        proof {
            use_type_invariant(&*self);
        }
        match self.state {
            HandshakeState::Connected => {
                self.state = HandshakeState::OptionsSent;
                Step::Send(options_request(self.remote.as_str()))
            },
            _ => Step::Idle,
        }
    }

    /// Takes the response to the request that is out and hands out the
    /// next step. The response to `SETUP` decides: with a port in it the
    /// exchange goes on to `PLAY`, without one it fails and sends nothing
    /// more.
    pub fn receive(&mut self, response: &str) -> (step: Step)
        ensures
            final(self)@ == receive(old(self)@, response@).0,
            step@ == receive(old(self)@, response@).1,
    {
        proof {
            use_type_invariant(&*self);
        }
        match self.state {
            HandshakeState::OptionsSent => {
                self.state = HandshakeState::DescribeSent;
                Step::Send(describe_request(self.remote.as_str()))
            },
            HandshakeState::DescribeSent => {
                self.state = HandshakeState::SetupSent;
                Step::Send(setup_request(self.remote.as_str(), self.local_port))
            },
            HandshakeState::SetupSent => match parse_setup_response(response) {
                Ok(session) => {
                    let request = play_request(self.remote.as_str(), session.token.as_str());
                    self.state = HandshakeState::Negotiated;
                    self.media_port = session.media_port;
                    self.token = session.token;
                    Step::Send(request)
                },
                Err(error) => {
                    self.state = HandshakeState::Failed;
                    Step::Failed(error)
                },
            },
            HandshakeState::Negotiated => {
                self.state = HandshakeState::Playing;
                Step::Established(
                    Session { media_port: self.media_port, token: self.token.clone() },
                )
            },
            _ => Step::Idle,
        }
    }
}

/// The states in which a request is out and its response is awaited.
pub open spec fn awaits_response(state: HandshakeState) -> bool {
    state == HandshakeState::OptionsSent || state == HandshakeState::DescribeSent || state
        == HandshakeState::SetupSent || state == HandshakeState::Negotiated
}

/// The exchange after `begin` and then the responses of `responses`, each
/// taken in turn.
pub open spec fn after_responses(h: HandshakeView, responses: Seq<Seq<char>>) -> HandshakeView
    decreases responses.len(),
{
    if responses.len() == 0 {
        begin(h).0
    } else {
        receive(after_responses(h, responses.drop_last()), responses.last()).0
    }
}

/// A whole exchange. From `Connected`, the four requests go out in their
/// order, each after the response to the one before it, and the exchange
/// is established with the port and the token that the response to
/// `SETUP` named. Without a port in that response it fails before `PLAY`.
pub proof fn lemma_exchange(
    h: HandshakeView,
    options: Seq<char>,
    describe: Seq<char>,
    setup: Seq<char>,
    play: Seq<char>,
)
    requires
        h.state == HandshakeState::Connected,
    ensures
        begin(h).1 == StepView::Send(options_text(h.remote)),
        receive(after_responses(h, seq![]), options).1 == StepView::Send(describe_text(h.remote)),
        receive(after_responses(h, seq![options]), describe).1 == StepView::Send(
            setup_text(h.remote, h.local_port),
        ),
        match setup_outcome(setup) {
            Ok((port, token)) => {
                &&& receive(after_responses(h, seq![options, describe]), setup).1
                    == StepView::Send(play_text(h.remote, token))
                &&& receive(after_responses(h, seq![options, describe, setup]), play).1
                    == StepView::Established(port, token)
                &&& after_responses(h, seq![options, describe, setup, play]).state
                    == HandshakeState::Playing
            },
            Err(error) => {
                &&& receive(after_responses(h, seq![options, describe]), setup).1
                    == StepView::Failed(error)
                &&& receive(after_responses(h, seq![options, describe, setup]), play).1
                    == StepView::Idle
                &&& after_responses(h, seq![options, describe, setup, play]).state
                    == HandshakeState::Failed
            },
        },
{
    let s0 = after_responses(h, seq![]);
    let r1 = seq![options];
    let r2 = seq![options, describe];
    let r3 = seq![options, describe, setup];
    let r4 = seq![options, describe, setup, play];
    assert(r1.drop_last() =~= seq![]);
    assert(r2.drop_last() =~= r1);
    assert(r3.drop_last() =~= r2);
    assert(r4.drop_last() =~= r3);
    let s1 = after_responses(h, r1);
    let s2 = after_responses(h, r2);
    let s3 = after_responses(h, r3);
    let s4 = after_responses(h, r4);
    assert(s0.state == HandshakeState::OptionsSent);
    assert(s1 == receive(s0, options).0);
    assert(s2 == receive(s1, describe).0);
    assert(s3 == receive(s2, setup).0);
    assert(s4 == receive(s3, play).0);
}

/// Once the exchange is over, established or failed, no response makes it
/// send anything: every further step is idle and changes nothing.
pub proof fn lemma_over_is_final(h: HandshakeView, response: Seq<char>)
    requires
        h.state == HandshakeState::Playing || h.state == HandshakeState::Failed,
    ensures
        receive(h, response) == (h, StepView::Idle),
        begin(h) == (h, StepView::Idle),
{
}

/// `PLAY` goes out only on a response to `SETUP` that names a port: a
/// response without a `Transport:` line, or without a port in that line,
/// fails the exchange at once.
pub proof fn lemma_no_port_no_play(h: HandshakeView, response: Seq<char>)
    requires
        h.state == HandshakeState::SetupSent,
        server_port(response) is None,
    ensures
        receive(h, response).0.state == HandshakeState::Failed,
        first_line_with(response, "Transport:"@) is None ==> receive(h, response).1
            == StepView::Failed(ProtocolError::MissingTransport),
        first_line_with(response, "Transport:"@) is Some ==> receive(h, response).1
            == StepView::Failed(ProtocolError::MissingServerPort),
{
}

/// The session that a response sets up has the port and the token that the
/// response names.
pub proof fn lemma_outcome_port(response: Seq<char>)
    ensures
        match setup_outcome(response) {
            Ok((port, token)) => server_port(response) == Some(port) && token == session_token(
                response,
            ),
            Err(_) => server_port(response) is None,
        },
{
}

} // verus!
