//! The listener for administrative events, and how it copes with failures.
//!
//! The listener keeps one connection to the event stream of the local
//! node. When the connection fails it waits and connects again, and counts
//! the failures in a row; a message that it can read sets the count back to
//! zero. A failure at the limit closes the listener for good. A message
//! that it cannot read makes it connect again as well, but is not counted.
//! The caller owns the connection: it reports what happens as events and
//! carries out the action that each event leads to.

use vstd::prelude::*;
use vstd::string::*;

verus! {

/// Default limit for the number of failures in a row.
pub const RECONNECT_LIMIT: u64 = 10;

/// Default time in seconds after which a connection without a message
/// counts as failed.
pub const CONNECTION_TIMEOUT: u64 = 60;

/// What is added to the node's URL to register for administrative events.
pub const REGISTRATION_ROUTE: &'static str = "/ws/admin/register/grid";

/// Where a listener stands.
#[derive(Clone, Copy, Debug, PartialEq, Eq, Structural)]
pub enum Phase {
    /// Not started.
    Disconnected,
    /// A connection is being made.
    Connecting,
    /// The connection is open.
    Connected,
    /// The connection failed; the next attempt is due later.
    ReconnectWait,
    /// Given up or stopped, for good.
    Closed,
}

/// What the caller reports to the listener.
#[derive(Clone, Copy, Debug, PartialEq, Eq, Structural)]
pub enum ListenerEvent {
    /// The owner wants the listener to run.
    Start,
    /// The connection that was being made is open.
    Opened,
    /// Connecting, sending or receiving failed or timed out.
    TransportError,
    /// No message came within the configured time.
    IdleTimeout,
    /// A message came and could be read as an administrative event.
    Message,
    /// A message came that could not be read.
    Malformed,
    /// The wait before the next attempt is over.
    RetryDue,
    /// The owner wants the listener to end.
    Stop,
}

/// What the caller has to do after an event.
#[derive(Clone, Copy, Debug, PartialEq, Eq, Structural)]
pub enum ListenerAction {
    /// Nothing.
    Nothing,
    /// Make a connection.
    Connect,
    /// Drop the connection and wait before the next attempt.
    AwaitRetry,
    /// Close the connection with a protocol error and wait before the next
    /// attempt.
    CloseAndAwaitRetry,
    /// Hand the administrative event on to be processed.
    Deliver,
    /// Drop the connection and tell the owner that the listener gave up.
    GiveUp,
    /// Close the connection.
    Disconnect,
}

/// What the owner of a listener has to be told of.
#[derive(Clone, Copy, Debug, PartialEq, Eq, Structural)]
pub enum ListenerError {
    /// A message could not be read as an administrative event.
    ProtocolDecodeError,
    /// The connection failed too often in a row; the listener is closed.
    ReconnectExhaustedError,
}

/// The error that an action reports, if it reports one.
pub open spec fn reported(action: ListenerAction) -> Option<ListenerError> {
    match action {
        ListenerAction::CloseAndAwaitRetry => Some(ListenerError::ProtocolDecodeError),
        ListenerAction::GiveUp => Some(ListenerError::ReconnectExhaustedError),
        _ => None,
    }
}

/// The error that the owner has to be told of when the listener asks for
/// `action`: a message that could not be read, or that the listener gave
/// up. Neither ends the process; only the second ends the listener.
pub fn error_of(action: ListenerAction) -> (error: Option<ListenerError>)
    ensures
        error == reported(action),
{
    match action {
        ListenerAction::CloseAndAwaitRetry => Some(ListenerError::ProtocolDecodeError),
        ListenerAction::GiveUp => Some(ListenerError::ReconnectExhaustedError),
        _ => None,
    }
}

/// A listener: where it stands, and how it is set up.
#[derive(Clone, Copy, Debug, PartialEq, Eq, Structural)]
pub struct Listener {
    /// Where the listener stands.
    pub phase: Phase,
    /// Number of failures in a row.
    pub failures: u64,
    /// Number of failures in a row after which the next one is final.
    pub reconnect_limit: u64,
    /// Time in seconds after which a connection without a message counts
    /// as failed.
    pub timeout: u64,
}

impl Listener {
    /// Whether the count of failures is within the limit.
    pub open spec fn well_formed(self) -> bool {
        self.failures <= self.reconnect_limit
    }

    /// The listener at another phase.
    pub open spec fn at(self, phase: Phase) -> Listener {
        Listener { phase, ..self }
    }

    /// What a failure of the connection leads to: another attempt after a
    /// wait, and one more failure on the count, unless the count has
    /// reached the limit; then the listener closes.
    pub open spec fn after_failure(self) -> (Listener, ListenerAction) {
        if self.failures < self.reconnect_limit {
            (
                Listener {
                    phase: Phase::ReconnectWait,
                    failures: (self.failures + 1) as u64,
                    ..self
                },
                ListenerAction::AwaitRetry,
            )
        } else {
            (self.at(Phase::Closed), ListenerAction::GiveUp)
        }
    }

    /// What a message that cannot be read leads to: the connection is
    /// closed, and another is made after a wait, unless the count of
    /// failures has reached the limit; then the listener closes. The message
    /// is not counted as a failure.
    pub open spec fn after_malformed(self) -> (Listener, ListenerAction) {
        if self.failures < self.reconnect_limit {
            (self.at(Phase::ReconnectWait), ListenerAction::CloseAndAwaitRetry)
        } else {
            (self.at(Phase::Closed), ListenerAction::GiveUp)
        }
    }

    /// The listener after `event`, and what the caller has to do. An event
    /// that cannot occur where the listener stands changes nothing.
    pub open spec fn step(self, event: ListenerEvent) -> (Listener, ListenerAction) {
        match (self.phase, event) {
            (Phase::Closed, _) => (self, ListenerAction::Nothing),
            (Phase::Disconnected, ListenerEvent::Stop) => (
                self.at(Phase::Closed),
                ListenerAction::Nothing,
            ),
            (Phase::ReconnectWait, ListenerEvent::Stop) => (
                self.at(Phase::Closed),
                ListenerAction::Nothing,
            ),
            (_, ListenerEvent::Stop) => (self.at(Phase::Closed), ListenerAction::Disconnect),
            (Phase::Disconnected, ListenerEvent::Start) => (
                self.at(Phase::Connecting),
                ListenerAction::Connect,
            ),
            (Phase::Connecting, ListenerEvent::Opened) => (
                self.at(Phase::Connected),
                ListenerAction::Nothing,
            ),
            (Phase::Connecting, ListenerEvent::TransportError) => self.after_failure(),
            (Phase::Connected, ListenerEvent::TransportError) => self.after_failure(),
            (Phase::Connected, ListenerEvent::IdleTimeout) => self.after_failure(),
            (Phase::Connected, ListenerEvent::Message) => (
                Listener { failures: 0, ..self },
                ListenerAction::Deliver,
            ),
            (Phase::Connected, ListenerEvent::Malformed) => self.after_malformed(),
            (Phase::ReconnectWait, ListenerEvent::RetryDue) => (
                self.at(Phase::Connecting),
                ListenerAction::Connect,
            ),
            _ => (self, ListenerAction::Nothing),
        }
    }

    /// A listener that has not started, with the given limit and timeout.
    pub fn new(reconnect_limit: u64, timeout: u64) -> (listener: Listener)
        ensures
            listener == (Listener {
                phase: Phase::Disconnected,
                failures: 0,
                reconnect_limit,
                timeout,
            }),
            listener.well_formed(),
    {
        Listener { phase: Phase::Disconnected, failures: 0, reconnect_limit, timeout }
    }

    /// Counts a failure of the connection: see `after_failure`.
    fn fail(&mut self) -> (action: ListenerAction)
        ensures
            (*final(self), action) == old(self).after_failure(),
    {
        if self.failures < self.reconnect_limit {
            self.phase = Phase::ReconnectWait;
            self.failures = self.failures + 1;
            ListenerAction::AwaitRetry
        } else {
            self.phase = Phase::Closed;
            ListenerAction::GiveUp
        }
    }

    /// Takes an event and says what to do: see `step`.
    pub fn handle(&mut self, event: ListenerEvent) -> (action: ListenerAction)
        ensures
            (*final(self), action) == old(self).step(event),
            old(self).well_formed() ==> final(self).well_formed(),
    {
        match (self.phase, event) {
            (Phase::Closed, _) => ListenerAction::Nothing,
            (Phase::Disconnected, ListenerEvent::Stop) => {
                self.phase = Phase::Closed;
                ListenerAction::Nothing
            },
            (Phase::ReconnectWait, ListenerEvent::Stop) => {
                self.phase = Phase::Closed;
                ListenerAction::Nothing
            },
            (_, ListenerEvent::Stop) => {
                self.phase = Phase::Closed;
                ListenerAction::Disconnect
            },
            (Phase::Disconnected, ListenerEvent::Start) => {
                self.phase = Phase::Connecting;
                ListenerAction::Connect
            },
            (Phase::Connecting, ListenerEvent::Opened) => {
                self.phase = Phase::Connected;
                ListenerAction::Nothing
            },
            (Phase::Connecting, ListenerEvent::TransportError) => self.fail(),
            (Phase::Connected, ListenerEvent::TransportError) => self.fail(),
            (Phase::Connected, ListenerEvent::IdleTimeout) => self.fail(),
            (Phase::Connected, ListenerEvent::Message) => {
                self.failures = 0;
                ListenerAction::Deliver
            },
            (Phase::Connected, ListenerEvent::Malformed) => {
                if self.failures < self.reconnect_limit {
                    self.phase = Phase::ReconnectWait;
                    ListenerAction::CloseAndAwaitRetry
                } else {
                    self.phase = Phase::Closed;
                    ListenerAction::GiveUp
                }
            },
            (Phase::ReconnectWait, ListenerEvent::RetryDue) => {
                self.phase = Phase::Connecting;
                ListenerAction::Connect
            },
            _ => ListenerAction::Nothing,
        }
    }
}

/// What it takes to listen for the administrative events of a node.
#[derive(Debug, Clone, PartialEq, Eq)]
pub struct AppAuthHandler {
    /// Where to register for the events.
    pub registration_route: String,
    /// The listener, which has started and wants to connect.
    pub listener: Listener,
}

/// Starts the listener for the administrative events of the node at
/// `splinterd_url`, with the default limit and timeout. The caller has to
/// make the first connection, to the registration route.
pub fn run(splinterd_url: &str) -> (handler: AppAuthHandler)
    ensures
        handler.registration_route@ == splinterd_url@ + REGISTRATION_ROUTE@,
        (handler.listener, ListenerAction::Connect) == (Listener {
            phase: Phase::Disconnected,
            failures: 0,
            reconnect_limit: RECONNECT_LIMIT,
            timeout: CONNECTION_TIMEOUT,
        }).step(ListenerEvent::Start),
        handler.listener.phase == Phase::Connecting,
        handler.listener.well_formed(),
{
    let mut listener = Listener::new(RECONNECT_LIMIT, CONNECTION_TIMEOUT);
    let _ = listener.handle(ListenerEvent::Start);
    AppAuthHandler {
        registration_route: String::from_str(splinterd_url).concat(REGISTRATION_ROUTE),
        listener,
    }
}

/// Whether `event` reports that the connection failed where `listener`
/// stands: a transport error while connecting or connected, or a
/// connection without messages.
pub open spec fn is_failure(listener: Listener, event: ListenerEvent) -> bool {
    ||| listener.phase == Phase::Connecting && event == ListenerEvent::TransportError
    ||| listener.phase == Phase::Connected && event == ListenerEvent::TransportError
    ||| listener.phase == Phase::Connected && event == ListenerEvent::IdleTimeout
}

/// The listener after a series of events.
pub open spec fn after_events(listener: Listener, events: Seq<ListenerEvent>) -> Listener
    decreases events.len(),
{
    if events.len() == 0 {
        listener
    } else {
        after_events(listener, events.drop_last()).step(events.last()).0
    }
}

/// The action that the last of a series of events leads to.
pub open spec fn last_action(listener: Listener, events: Seq<ListenerEvent>) -> ListenerAction {
    if events.len() == 0 {
        ListenerAction::Nothing
    } else {
        after_events(listener, events.drop_last()).step(events.last()).1
    }
}

/// The events of `attempts` attempts to connect that all fail: each is a
/// transport error followed, after the wait, by the next attempt.
pub open spec fn failed_attempts(attempts: nat) -> Seq<ListenerEvent>
    decreases attempts,
{
    if attempts == 0 {
        Seq::empty()
    } else {
        failed_attempts((attempts - 1) as nat).push(ListenerEvent::TransportError).push(
            ListenerEvent::RetryDue,
        )
    }
}

/// The count of failures never exceeds the limit.
pub proof fn lemma_step_well_formed(listener: Listener, event: ListenerEvent)
    requires
        listener.well_formed(),
    ensures
        listener.step(event).0.well_formed(),
        listener.step(event).0.reconnect_limit == listener.reconnect_limit,
        listener.step(event).0.timeout == listener.timeout,
{
}

/// While the failures in a row are below the limit, a failure makes the
/// listener wait and then connect again, with one more failure on the
/// count.
pub proof fn lemma_failure_below_limit(listener: Listener, event: ListenerEvent)
    requires
        is_failure(listener, event),
        listener.failures < listener.reconnect_limit,
    ensures
        listener.step(event).0.phase == Phase::ReconnectWait,
        listener.step(event).0.failures == listener.failures + 1,
        listener.step(event).1 == ListenerAction::AwaitRetry,
        listener.step(event).0.step(ListenerEvent::RetryDue).0.phase == Phase::Connecting,
        listener.step(event).0.step(ListenerEvent::RetryDue).1 == ListenerAction::Connect,
{
}

/// Once the failures in a row have reached the limit, the next failure
/// closes the listener, and the owner is told.
pub proof fn lemma_failure_at_limit(listener: Listener, event: ListenerEvent)
    requires
        is_failure(listener, event),
        listener.failures >= listener.reconnect_limit,
    ensures
        listener.step(event).0.phase == Phase::Closed,
        listener.step(event).1 == ListenerAction::GiveUp,
{
}

/// A closed listener stays closed and asks for nothing, whatever happens:
/// it makes no further connection.
pub proof fn lemma_closed_is_final(listener: Listener, events: Seq<ListenerEvent>)
    requires
        listener.phase == Phase::Closed,
    ensures
        after_events(listener, events) == listener,
        last_action(listener, events) == ListenerAction::Nothing,
    decreases events.len(),
{
    if events.len() > 0 {
        lemma_closed_is_final(listener, events.drop_last());
    }
}

/// A listener whose attempts all fail keeps connecting until their number
/// reaches the limit: after `attempts` failed attempts, not more than the
/// limit, it is connecting again and has counted them all. The failure
/// after that closes it.
pub proof fn lemma_reconnects_up_to_limit(listener: Listener, attempts: nat)
    requires
        listener.phase == Phase::Connecting,
        listener.failures == 0,
        attempts <= listener.reconnect_limit,
    ensures
        after_events(listener, failed_attempts(attempts)).phase == Phase::Connecting,
        after_events(listener, failed_attempts(attempts)).failures == attempts,
        after_events(listener, failed_attempts(attempts)).reconnect_limit
            == listener.reconnect_limit,
        attempts > 0 ==> last_action(listener, failed_attempts(attempts))
            == ListenerAction::Connect,
        attempts == listener.reconnect_limit ==> after_events(
            listener,
            failed_attempts(attempts).push(ListenerEvent::TransportError),
        ).phase == Phase::Closed,
    decreases attempts,
{
    let events = failed_attempts(attempts);
    if attempts > 0 {
        let earlier = failed_attempts((attempts - 1) as nat);
        lemma_reconnects_up_to_limit(listener, (attempts - 1) as nat);
        let failed = earlier.push(ListenerEvent::TransportError);
        assert(failed.drop_last() == earlier);
        assert(events.drop_last() == failed);
    }
    let last = events.push(ListenerEvent::TransportError);
    assert(last.drop_last() == events);
}

/// A message that cannot be read is never counted as a failure. While the
/// failures in a row are below the limit, it does not close the listener
/// either: the listener closes the connection, waits, and connects again
/// with its count unchanged.
pub proof fn lemma_malformed_message(listener: Listener)
    requires
        listener.phase == Phase::Connected,
    ensures
        listener.step(ListenerEvent::Malformed).0.failures == listener.failures,
        listener.failures < listener.reconnect_limit ==> {
            &&& listener.step(ListenerEvent::Malformed).0.phase == Phase::ReconnectWait
            &&& listener.step(ListenerEvent::Malformed).1 == ListenerAction::CloseAndAwaitRetry
            &&& listener.step(ListenerEvent::Malformed).0.step(ListenerEvent::RetryDue).0
                == listener.at(Phase::Connecting)
            &&& listener.step(ListenerEvent::Malformed).0.step(ListenerEvent::RetryDue).1
                == ListenerAction::Connect
        },
{
}

/// The events of `rounds` connections that each end with a message that
/// cannot be read: the message, the wait, and the next connection opening.
pub open spec fn malformed_rounds(rounds: nat) -> Seq<ListenerEvent>
    decreases rounds,
{
    if rounds == 0 {
        Seq::empty()
    } else {
        malformed_rounds((rounds - 1) as nat).push(ListenerEvent::Malformed).push(
            ListenerEvent::RetryDue,
        ).push(ListenerEvent::Opened)
    }
}

/// Messages that cannot be read do not bring a listener nearer to giving
/// up, however many there are: while its failures in a row are below the
/// limit, the listener connects again after each of them, and its count of
/// failures stays as it was.
pub proof fn lemma_malformed_never_closes(listener: Listener, rounds: nat)
    requires
        listener.phase == Phase::Connected,
        listener.failures < listener.reconnect_limit,
    ensures
        after_events(listener, malformed_rounds(rounds)) == listener,
    decreases rounds,
{
    if rounds > 0 {
        let earlier = malformed_rounds((rounds - 1) as nat);
        lemma_malformed_never_closes(listener, (rounds - 1) as nat);
        let first = earlier.push(ListenerEvent::Malformed);
        let second = first.push(ListenerEvent::RetryDue);
        let third = second.push(ListenerEvent::Opened);
        assert(first.drop_last() == earlier);
        assert(second.drop_last() == first);
        assert(third.drop_last() == second);
        assert(after_events(listener, first) == listener.at(Phase::ReconnectWait));
        assert(after_events(listener, second) == listener.at(Phase::Connecting));
        assert(after_events(listener, third) == listener);
    }
}

/// A message that can be read sets the count of failures back to zero and
/// is handed on.
pub proof fn lemma_message_resets_failures(listener: Listener)
    requires
        listener.phase == Phase::Connected,
    ensures
        listener.step(ListenerEvent::Message).0.phase == Phase::Connected,
        listener.step(ListenerEvent::Message).0.failures == 0,
        listener.step(ListenerEvent::Message).1 == ListenerAction::Deliver,
{
}

} // verus!
