//! The client of the control channel as a state machine.
//!
//! The client connects, subscribes to one topic and then polls for events.
//! When a poll fails it waits and connects again, with a longer wait after
//! each failure in a row; after too many it gives up for good. A message on
//! the topic pauses the frame, or resumes it where the payload is `1`.
//!
//! The machine does no networking and no waiting. [`ControlClient::handle`]
//! takes what happened and answers with what the caller is to do next.

use crate::control::backoff::{
    draw_fits, jittered, lemma_default_delays, BackoffState, BASE_DELAY_MS, MAX_DELAY_MS,
};
use crate::random::random_below;
use vstd::prelude::*;

verus! {

/// Where the client stands.
#[derive(Clone, Copy, Debug, PartialEq, Eq, Structural)]
pub enum ClientState {
    /// A connection is being made.
    Connecting,
    /// The connection is there and the subscription has been asked for.
    Subscribed,
    /// The client waits for the next event.
    Polling,
    /// A poll has failed and the client waits before it connects again.
    Backoff,
    /// Too many polls have failed in a row. The client has stopped.
    GaveUp,
}

/// What happened.
#[derive(Debug)]
pub enum Event {
    /// The connection was made.
    Connected,
    /// The subscription was asked for; `accepted` says whether the request
    /// went out.
    Subscribed { accepted: bool },
    /// A poll brought a message.
    Message { topic: String, payload: Vec<u8> },
    /// A poll brought anything else.
    Other,
    /// A poll failed.
    PollFailed,
    /// The wait is over.
    Waited,
}

/// What a message on the control topic asks for.
#[derive(Clone, Copy, Debug, PartialEq, Eq, Structural)]
pub struct ControlCommand {
    /// The pause flag from now on.
    pub paused: bool,
    /// Whether the display is to be lit.
    pub display_on: bool,
}

/// What the caller is to do next.
#[derive(Debug)]
pub enum Action {
    /// Make a connection and answer with [`Event::Connected`].
    Connect,
    /// Subscribe to the topic and answer with [`Event::Subscribed`].
    Subscribe { topic: String },
    /// Poll and answer with what the poll brought.
    Poll,
    /// Set the pause flag and the display as the command says, then poll.
    Apply { command: ControlCommand },
    /// Drop the connection, wait this many milliseconds and answer with
    /// [`Event::Waited`].
    Wait { delay_ms: u64 },
    /// Drop the connection and stop.
    Stop,
}

#[derive(Debug)]
pub struct ControlClient {
    /// The topic that the client listens to.
    pub topic: String,
    pub state: ClientState,
    pub backoff: BackoffState,
}

/// The payload that resumes the frame: the one character `1`.
pub open spec fn resumes(payload: Seq<u8>) -> bool {
    payload =~= seq![0x31u8]
}

/// What a payload asks for: `1` resumes the frame and lights the display,
/// any other payload pauses the frame and darkens the display.
pub open spec fn command_of(payload: Seq<u8>) -> ControlCommand {
    ControlCommand { paused: !resumes(payload), display_on: resumes(payload) }
}

/// What a message asks for: the command of its payload where the message is
/// on the control topic, and nothing on any other topic.
pub open spec fn command_for(
    control_topic: Seq<char>,
    topic: Seq<char>,
    payload: Seq<u8>,
) -> Option<ControlCommand> {
    if topic == control_topic {
        Some(command_of(payload))
    } else {
        None
    }
}

impl ControlCommand {
    /// What to write to the display's power switch, which reads 0 as lit.
    pub fn bl_power(&self) -> (text: &'static str)
        ensures
            text@ == (if self.display_on {
                "0"@
            } else {
                "1"@
            }),
    {
        if self.display_on {
            "0"
        } else {
            "1"
        }
    }

    /// Reads a payload.
    pub fn from_payload(payload: &Vec<u8>) -> (command: Self)
        ensures
            command == command_of(payload@),
    {
        let resume = payload.len() == 1 && payload[0] == 0x31;
        ControlCommand { paused: !resume, display_on: resume }
    }
}

impl ControlClient {
    /// The client has given up exactly when it has counted more failures in
    /// a row than retries are allowed.
    pub open spec fn well_formed(&self) -> bool {
        (self.state == ClientState::GaveUp) == self.backoff.exhausted()
    }

    /// The draw is one that the event allows: within the range of jitter
    /// where a failed poll leads to a wait, and 0 otherwise.
    pub open spec fn admits(&self, event: Event, draw: int) -> bool {
        if self.state == ClientState::Polling && event is PollFailed
            && !self.backoff.failed().exhausted() {
            draw_fits(self.backoff.failed().delay_spec(), draw)
        } else {
            draw == 0
        }
    }

    /// The wait is one that this client may ask for. After a failed poll it
    /// is at least three quarters of the delay that the failure leads to and
    /// less than five quarters of it, a delay of less than four milliseconds
    /// kept as it is. A client that is waiting already asks for the delay
    /// itself again.
    pub open spec fn waits_within(&self, ms: int) -> bool {
        if self.state == ClientState::Polling {
            let delay = self.backoff.failed().delay_spec();
            &&& delay - delay / 4 <= ms <= delay + delay / 4
            &&& delay >= 4 ==> ms < delay + delay / 4
            &&& ms <= self.backoff.max_delay + self.backoff.max_delay / 4
        } else {
            ms == self.backoff.delay_spec()
        }
    }

    /// What the client asks for while it stands in its state and nothing
    /// that it waits for has happened.
    pub open spec fn repeated(self) -> Action {
        match self.state {
            ClientState::Connecting => Action::Connect,
            ClientState::Subscribed => Action::Subscribe { topic: self.topic },
            ClientState::Polling => Action::Poll,
            ClientState::Backoff => Action::Wait { delay_ms: self.backoff.delay_spec() as u64 },
            ClientState::GaveUp => Action::Stop,
        }
    }

    /// The client after an event, and what it asks for, when `draw` is the
    /// number drawn for jitter.
    ///
    /// Every poll that brings something sets the count of failures back to
    /// zero. A failed poll raises it; with more failures in a row than
    /// retries are allowed the client gives up, and from there no event
    /// moves it. An event that the state does not wait for changes nothing.
    pub open spec fn next(self, event: Event, draw: int) -> (ControlClient, Action) {
        match (self.state, event) {
            (ClientState::Connecting, Event::Connected) => (
                ControlClient { state: ClientState::Subscribed, ..self },
                Action::Subscribe { topic: self.topic },
            ),
            (ClientState::Subscribed, Event::Subscribed { .. }) => (
                ControlClient { state: ClientState::Polling, ..self },
                Action::Poll,
            ),
            (ClientState::Polling, Event::Message { topic, payload }) => (
                ControlClient { backoff: self.backoff.succeeded(), ..self },
                match command_for(self.topic@, topic@, payload@) {
                    Some(command) => Action::Apply { command },
                    None => Action::Poll,
                },
            ),
            (ClientState::Polling, Event::Other) => (
                ControlClient { backoff: self.backoff.succeeded(), ..self },
                Action::Poll,
            ),
            (ClientState::Polling, Event::PollFailed) => if self.backoff.failed().exhausted() {
                (
                    ControlClient {
                        state: ClientState::GaveUp,
                        backoff: self.backoff.failed(),
                        ..self
                    },
                    Action::Stop,
                )
            } else {
                (
                    ControlClient {
                        state: ClientState::Backoff,
                        backoff: self.backoff.failed(),
                        ..self
                    },
                    Action::Wait {
                        delay_ms: jittered(self.backoff.failed().delay_spec(), draw) as u64,
                    },
                )
            },
            (ClientState::Backoff, Event::Waited) => (
                ControlClient { state: ClientState::Connecting, ..self },
                Action::Connect,
            ),
            _ => (self, self.repeated()),
        }
    }

    /// A client for one topic, about to connect, with the bounds of this
    /// crate.
    pub fn new(topic: String) -> (client: Self)
        ensures
            client.topic == topic,
            client.state == ClientState::Connecting,
            client.backoff == (BackoffState {
                retry_count: 0,
                base_delay: crate::control::backoff::BASE_DELAY_MS,
                max_delay: crate::control::backoff::MAX_DELAY_MS,
                max_retries: crate::control::backoff::MAX_RETRIES,
            }),
            client.well_formed(),
    {
        ControlClient { topic, state: ClientState::Connecting, backoff: BackoffState::new() }
    }

    /// What the client asks for first.
    pub fn start(&self) -> (action: Action)
        ensures
            action == self.repeated(),
    {
        self.repeat()
    }

    fn repeat(&self) -> (action: Action)
        ensures
            action == self.repeated(),
    {
        match self.state {
            ClientState::Connecting => Action::Connect,
            ClientState::Subscribed => Action::Subscribe { topic: self.topic.clone() },
            ClientState::Polling => Action::Poll,
            ClientState::Backoff => Action::Wait { delay_ms: self.backoff.delay() },
            ClientState::GaveUp => Action::Stop,
        }
    }

    /// Takes an event, with `draw` as the number drawn for jitter.
    pub fn handle_with(&mut self, event: Event, draw: u64) -> (action: Action)
        requires
            old(self).admits(event, draw as int),
        ensures
            (*final(self), action) == old(self).next(event, draw as int),
            action matches Action::Wait { delay_ms } ==> old(self).waits_within(delay_ms as int),
    {
        match (self.state, event) {
            (ClientState::Connecting, Event::Connected) => {
                self.state = ClientState::Subscribed;
                Action::Subscribe { topic: self.topic.clone() }
            },
            (ClientState::Subscribed, Event::Subscribed { .. }) => {
                self.state = ClientState::Polling;
                Action::Poll
            },
            (ClientState::Polling, Event::Message { topic, payload }) => {
                self.backoff.reset();
                if topic == self.topic {
                    Action::Apply { command: ControlCommand::from_payload(&payload) }
                } else {
                    Action::Poll
                }
            },
            (ClientState::Polling, Event::Other) => {
                self.backoff.reset();
                Action::Poll
            },
            (ClientState::Polling, Event::PollFailed) => {
                self.backoff.record_failure();
                if self.backoff.is_exhausted() {
                    self.state = ClientState::GaveUp;
                    Action::Stop
                } else {
                    self.state = ClientState::Backoff;
                    let delay: u64 = self.backoff.delay();
                    Action::Wait { delay_ms: BackoffState::delay_with_jitter(delay, draw) }
                }
            },
            (ClientState::Backoff, Event::Waited) => {
                self.state = ClientState::Connecting;
                Action::Connect
            },
            _ => self.repeat(),
        }
    }

    /// Takes an event. Where a failed poll leads to a wait, the delay gets
    /// its jitter from a number drawn at random.
    pub fn handle(&mut self, event: Event) -> (action: Action)
        ensures
            exists|draw: int|
                old(self).admits(event, draw) && (*final(self), action) == old(self).next(
                    event,
                    draw,
                ),
            old(self).state == ClientState::GaveUp ==> action == Action::Stop && *final(self)
                == *old(self),
            action matches Action::Wait { delay_ms } ==> old(self).waits_within(delay_ms as int),
    {
        let waits: bool = match (&self.state, &event) {
            (ClientState::Polling, Event::PollFailed) => {
                let mut after: BackoffState = self.backoff;
                after.record_failure();
                !after.is_exhausted()
            },
            _ => false,
        };
        let span: u64 = if waits {
            let mut after: BackoffState = self.backoff;
            after.record_failure();
            2 * (after.delay() / 4)
        } else {
            0
        };
        let draw: u64 = if span > 0 {
            random_below(span)
        } else {
            0
        };
        let ghost before = *self;
        let action = self.handle_with(event, draw);
        assert(before.admits(event, draw as int) && (*self, action) == before.next(
            event,
            draw as int,
        ));
        action
    }
}

/// A client that is well formed stays so, whatever happens.
pub proof fn lemma_client_stays_well_formed(client: ControlClient, event: Event, draw: int)
    requires
        client.well_formed(),
    ensures
        client.next(event, draw).0.well_formed(),
        client.next(event, draw).0.topic == client.topic,
{
}

/// With the bounds of this crate no wait after a failed poll is shorter than
/// 750 milliseconds, and none reaches 75 seconds.
pub proof fn lemma_waits_are_bounded(client: ControlClient, draw: int)
    requires
        client.state == ClientState::Polling,
        client.backoff.base_delay == BASE_DELAY_MS,
        client.backoff.max_delay == MAX_DELAY_MS,
        client.admits(Event::PollFailed, draw),
    ensures
        client.next(Event::PollFailed, draw).1 matches Action::Wait { delay_ms } ==> 750
            <= delay_ms < 75000 && client.waits_within(delay_ms as int),
{
    let count = client.backoff.failed().retry_count as nat;
    if count >= 1 {
        lemma_default_delays(count);
    } else {
        lemma_default_delays(1);
    }
}

/// A client that has given up stays so: whatever happens, it asks to stop
/// and does not change.
pub proof fn lemma_gave_up_is_final(client: ControlClient, event: Event, draw: int)
    requires
        client.state == ClientState::GaveUp,
    ensures
        client.next(event, draw) == (client, Action::Stop),
{
}

/// A failed poll makes the client give up exactly when it is one failure
/// more in a row than retries are allowed; until then it leads to a wait and
/// a new connection.
pub proof fn lemma_gives_up_after_last_retry(client: ControlClient, draw: int)
    requires
        client.state == ClientState::Polling,
        client.backoff.retry_count < u32::MAX,
    ensures
        client.next(Event::PollFailed, draw).0.state == (if client.backoff.retry_count
            >= client.backoff.max_retries {
            ClientState::GaveUp
        } else {
            ClientState::Backoff
        }),
        client.next(Event::PollFailed, draw).0.backoff.retry_count == client.backoff.retry_count
            + 1,
        client.next(Event::PollFailed, draw).1 is Stop <==> client.backoff.retry_count
            >= client.backoff.max_retries,
{
}

/// A message on the control topic with the payload `1` resumes the frame,
/// one with any other payload pauses it, and a message on another topic
/// asks for nothing.
pub proof fn lemma_commands(control_topic: Seq<char>, topic: Seq<char>, payload: Seq<u8>)
    ensures
        topic != control_topic ==> command_for(control_topic, topic, payload).is_none(),
        topic == control_topic && payload =~= seq![0x31u8] ==> command_for(
            control_topic,
            topic,
            payload,
        ) == Some(ControlCommand { paused: false, display_on: true }),
        topic == control_topic && !(payload =~= seq![0x31u8]) ==> command_for(
            control_topic,
            topic,
            payload,
        ) == Some(ControlCommand { paused: true, display_on: false }),
{
}

} // verus!
