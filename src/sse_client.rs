use vstd::prelude::*;
use vstd::string::StringExecFns;

verus! {

/// Seconds the consumer waits after a failed or ended connection before it
/// connects again.
pub const RECONNECT_DELAY_SECS: u64 = 5;

/// A notification as the consumer decodes it from a stream frame.
#[derive(Clone, Debug)]
pub struct NotificationEvent {
    pub id: String,
    pub event_type: String,
    pub title: String,
    pub message: String,
    pub timestamp: String,
}

/// Where the consumer's connection stands.
#[derive(Clone, Copy, Debug, PartialEq, Eq, Structural)]
pub enum ConnectionState {
    Disconnected,
    Connecting,
    Streaming,
    Stopped,
}

/// What happened to the consumer: a command of its host, or the outcome of
/// the outside work it last asked for.
pub enum ConsumerEvent {
    /// The host starts the consumer.
    Start,
    /// The streaming request was answered.
    Opened,
    /// The streaming request failed.
    OpenFailed,
    /// A frame arrived, with its category and its data decoded as an event
    /// where the data is one.
    Frame { event: String, parsed: Option<NotificationEvent> },
    /// Reading the stream failed.
    StreamFailed,
    /// The server ended the stream.
    StreamEnded,
    /// The reconnect delay is over.
    DelayElapsed,
    /// The host stops the consumer.
    Stop,
}

/// What the consumer asks its driver to do next.
pub enum ConsumerAction {
    /// Issue the streaming request.
    Open,
    /// Hand this event to the local sink, then read on.
    Deliver(NotificationEvent),
    /// Wait this many seconds, then report `DelayElapsed`.
    Sleep(u64),
    /// Read the next frame.
    Continue,
    /// End the loop for good.
    Halt,
}

/// The resilient stream consumer: the endpoint it reads and the state of its
/// connection. It reconnects after every failure, with a fixed delay, until
/// its host stops it.
pub struct SSEClient {
    url: String,
    state: ConnectionState,
}

/// Whether a frame carries a notification that decoded.
pub open spec fn is_delivery(ev: ConsumerEvent) -> bool {
    ev matches ConsumerEvent::Frame { event, parsed } && event@ == "notification"@ && parsed is Some
}

/// Whether an event ends the connection in the streaming state.
pub open spec fn ends_stream(ev: ConsumerEvent) -> bool {
    ev is StreamFailed || ev is StreamEnded
}

/// The state after an event.
pub open spec fn next_state(s: ConnectionState, ev: ConsumerEvent) -> ConnectionState {
    if ev is Stop || s is Stopped {
        ConnectionState::Stopped
    } else if s is Disconnected && (ev is Start || ev is DelayElapsed) {
        ConnectionState::Connecting
    } else if s is Connecting && ev is Opened {
        ConnectionState::Streaming
    } else if s is Connecting && ev is OpenFailed {
        ConnectionState::Disconnected
    } else if s is Streaming && ends_stream(ev) {
        ConnectionState::Disconnected
    } else {
        s
    }
}

/// The action that answers an event in a state.
pub open spec fn next_action(s: ConnectionState, ev: ConsumerEvent) -> ConsumerAction {
    if ev is Stop || s is Stopped {
        ConsumerAction::Halt
    } else if s is Disconnected && (ev is Start || ev is DelayElapsed) {
        ConsumerAction::Open
    } else if (s is Connecting && ev is OpenFailed) || (s is Streaming && ends_stream(ev)) {
        ConsumerAction::Sleep(RECONNECT_DELAY_SECS)
    } else if s is Streaming && is_delivery(ev) {
        ConsumerAction::Deliver(ev->Frame_parsed.unwrap())
    } else {
        ConsumerAction::Continue
    }
}

impl SSEClient {
    pub closed spec fn url_view(&self) -> Seq<char> {
        self.url@
    }

    pub closed spec fn state_view(&self) -> ConnectionState {
        self.state
    }

    /// A consumer of the stream at `url`, not yet connected.
    pub fn new(url: String) -> (r: SSEClient)
        ensures
            r.url_view() == url@,
            r.state_view() == ConnectionState::Disconnected,
    {
        SSEClient { url, state: ConnectionState::Disconnected }
    }

    /// The endpoint this consumer reads.
    pub fn url(&self) -> (r: &str)
        ensures
            r@ == self.url_view(),
    {
        self.url.as_str()
    }

    /// Where the connection stands.
    pub fn state(&self) -> (r: ConnectionState)
        ensures
            r == self.state_view(),
    {
        self.state
    }

    /// Advances the consumer by one event and says what to do next. A stop
    /// halts it for good; a start or an elapsed delay opens the stream; a
    /// failed open or a failed or ended stream waits the fixed delay; a
    /// `notification` frame that decoded is delivered; any other frame is
    /// skipped.
    pub fn step(&mut self, ev: ConsumerEvent) -> (r: ConsumerAction)
        ensures
            final(self).url_view() == old(self).url_view(),
            final(self).state_view() == next_state(old(self).state_view(), ev),
            r == next_action(old(self).state_view(), ev),
    {
        let s = self.state;
        if matches!(ev, ConsumerEvent::Stop) || matches!(s, ConnectionState::Stopped) {
            self.state = ConnectionState::Stopped;
            return ConsumerAction::Halt;
        }
        match (s, ev) {
            (ConnectionState::Disconnected, ConsumerEvent::Start)
            | (ConnectionState::Disconnected, ConsumerEvent::DelayElapsed) => {
                self.state = ConnectionState::Connecting;
                ConsumerAction::Open
            },
            (ConnectionState::Connecting, ConsumerEvent::Opened) => {
                self.state = ConnectionState::Streaming;
                ConsumerAction::Continue
            },
            (ConnectionState::Connecting, ConsumerEvent::OpenFailed)
            | (ConnectionState::Streaming, ConsumerEvent::StreamFailed)
            | (ConnectionState::Streaming, ConsumerEvent::StreamEnded) => {
                self.state = ConnectionState::Disconnected;
                ConsumerAction::Sleep(RECONNECT_DELAY_SECS)
            },
            (ConnectionState::Streaming, ConsumerEvent::Frame { event, parsed }) => {
                let label = String::from_str("notification");
                if event.eq(&label) {
                    match parsed {
                        Some(n) => ConsumerAction::Deliver(n),
                        None => ConsumerAction::Continue,
                    }
                } else {
                    ConsumerAction::Continue
                }
            },
            _ => ConsumerAction::Continue,
        }
    }
}

} // verus!
