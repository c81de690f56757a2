//! The per-connection session: what a connection's task does with each line
//! and each event, and how it ends.
//!
//! A session's task waits for a line from its socket or an event from the
//! bus, whichever comes first, tells the session what came, and does what
//! the returned [`Step`] says. The waiting, the socket and the token that is
//! taken from the limiter are the task's; every decision is made here.

use crate::address::Address;
use crate::connection::{
    decoded, trimmed, trimmed_has_no_outer_whitespace, ConnectionError, Message,
};
use crate::event::{description, Event, EventModel, EventSystem, EventType, Payload};
use crate::iphash::HashToString;
use leaky_bucket::RateLimiter;
use std::time::Duration;
use tokio::sync::broadcast::error::{RecvError, SendError};
use vstd::prelude::*;
use vstd::string::*;

verus! {

/// `leaky_bucket::RateLimiter`, a bucket of tokens that refills with time.
#[verifier::external_type_specification]
#[verifier::external_body]
pub struct ExRateLimiter(RateLimiter);

/// `tokio::sync::broadcast::error::RecvError`, why a subscription gave no
/// event.
#[verifier::external_type_specification]
#[verifier::external_body]
pub struct ExRecvError(RecvError);

/// The most tokens that `limiter` holds, as it was made.
pub uninterp spec fn limiter_max(limiter: RateLimiter) -> nat;

/// The tokens that `limiter` held when it was made.
pub uninterp spec fn limiter_initial(limiter: RateLimiter) -> nat;

/// The tokens that `limiter` gains in every interval, as it was made.
pub uninterp spec fn limiter_refill(limiter: RateLimiter) -> nat;

/// The length of the refill interval of `limiter` in milliseconds, as it
/// was made.
pub uninterp spec fn limiter_interval_millis(limiter: RateLimiter) -> nat;

/// The number of tokens that a limiter takes `tokens` for: no limiter
/// counts beyond `isize::MAX`.
pub open spec fn counted(tokens: usize) -> nat {
    if tokens <= isize::MAX {
        tokens as nat
    } else {
        isize::MAX as nat
    }
}

/// `RateLimiter::builder` with `max`, `initial`, `refill`, `interval` and
/// `build`: a limiter that holds at most `max` tokens, starts with
/// `initial` of them, `max` at most, and gains `refill` every
/// `interval_millis` milliseconds, each count cut at `isize::MAX`. The
/// builder panics on a refill of zero and on an interval of zero.
#[verifier::external_body]
fn build_limiter(max: usize, initial: usize, refill: usize, interval_millis: u64) -> (limiter:
    RateLimiter)
    requires
        refill > 0,
        interval_millis > 0,
    ensures
        limiter_max(limiter) == counted(max),
        limiter_initial(limiter) == if counted(initial) <= counted(max) {
            counted(initial)
        } else {
            counted(max)
        },
        limiter_refill(limiter) == counted(refill),
        limiter_interval_millis(limiter) == interval_millis,
{
    RateLimiter::builder()
        .max(max)
        .initial(initial)
        .refill(refill)
        .interval(Duration::from_millis(interval_millis))
        .build()
}

/// `RateLimiter::balance`, the number of tokens that the bucket holds at
/// this moment. It never waits.
pub assume_specification[ RateLimiter::balance ](limiter: &RateLimiter) -> (tokens: usize)
;

/// Which of its two variants `err` is, with the count that it carries.
pub uninterp spec fn failure_of(err: RecvError) -> RecvFailure;

/// Tells the two variants of `RecvError` apart.
#[verifier::external_body]
pub(crate) fn recv_failure(err: &RecvError) -> (failure: RecvFailure)
    ensures
        failure == failure_of(*err),
{
    match err {
        RecvError::Closed => RecvFailure::Closed,
        RecvError::Lagged(skipped) => RecvFailure::Lagged(*skipped),
    }
}

/// The most tokens that a session's bucket holds.
pub const BUCKET_MAX: usize = 10;

/// The tokens that a session's bucket starts with.
pub const BUCKET_INITIAL: usize = 10;

/// The tokens that a session's bucket gains in every interval.
pub const BUCKET_REFILL: usize = 5;

/// The length of the refill interval, in milliseconds.
pub const BUCKET_INTERVAL_MILLIS: u64 = 1000;

/// How long an address stays banned after a kick for flooding, in
/// nanoseconds.
pub const BANTIME: u128 = 10_000_000_000;

/// Why a session was closed.
#[derive(Clone, Copy, Debug, PartialEq, Eq, Structural)]
pub enum DisconnectError {
    /// The peer went away: its stream ended or failed.
    Eof,
    /// The peer was kicked for flooding.
    Spam,
}

/// Why a subscription gave no event.
#[derive(Clone, Copy, Debug, PartialEq, Eq, Structural)]
pub enum RecvFailure {
    /// The bus is gone.
    Closed,
    /// The subscription fell behind and this many events were dropped for
    /// it; it goes on with the oldest event that the bus still holds.
    Lagged(u64),
}

/// How a connection's task ended.
#[derive(Debug)]
pub enum HandleExit {
    /// The socket failed.
    IoError(std::io::Error),
    /// The bus was gone when the session waited for an event.
    RecvError(RecvError),
    /// The bus took no event.
    SendError(SendError<Event>),
    /// The session was closed in the ordinary way.
    Disconnect(DisconnectError),
}

/// The kind of a [`HandleExit`], without what it carries.
#[derive(Clone, Copy, Debug, PartialEq, Eq, Structural)]
pub enum ExitKind {
    IoError,
    RecvError,
    SendError,
    Disconnect(DisconnectError),
}

impl View for HandleExit {
    type V = ExitKind;

    open spec fn view(&self) -> ExitKind {
        match *self {
            HandleExit::IoError(_) => ExitKind::IoError,
            HandleExit::RecvError(_) => ExitKind::RecvError,
            HandleExit::SendError(_) => ExitKind::SendError,
            HandleExit::Disconnect(reason) => ExitKind::Disconnect(reason),
        }
    }
}

impl HandleExit {
    /// The kind of the exit.
    pub fn kind(&self) -> (kind: ExitKind)
        ensures
            kind == self@,
    {
        match self {
            HandleExit::IoError(_) => ExitKind::IoError,
            HandleExit::RecvError(_) => ExitKind::RecvError,
            HandleExit::SendError(_) => ExitKind::SendError,
            HandleExit::Disconnect(reason) => ExitKind::Disconnect(*reason),
        }
    }
}

impl From<RecvError> for HandleExit {
    fn from(err: RecvError) -> (exit: HandleExit) {
        HandleExit::RecvError(err)
    }
}

impl vstd::std_specs::convert::FromSpecImpl<RecvError> for HandleExit {
    open spec fn obeys_from_spec() -> bool {
        true
    }

    open spec fn from_spec(err: RecvError) -> HandleExit {
        HandleExit::RecvError(err)
    }
}

impl From<SendError<Event>> for HandleExit {
    fn from(err: SendError<Event>) -> (exit: HandleExit) {
        HandleExit::SendError(err)
    }
}

impl vstd::std_specs::convert::FromSpecImpl<SendError<Event>> for HandleExit {
    open spec fn obeys_from_spec() -> bool {
        true
    }

    open spec fn from_spec(err: SendError<Event>) -> HandleExit {
        HandleExit::SendError(err)
    }
}

impl From<std::io::Error> for HandleExit {
    fn from(err: std::io::Error) -> (exit: HandleExit) {
        HandleExit::IoError(err)
    }
}

impl vstd::std_specs::convert::FromSpecImpl<std::io::Error> for HandleExit {
    open spec fn obeys_from_spec() -> bool {
        true
    }

    open spec fn from_spec(err: std::io::Error) -> HandleExit {
        HandleExit::IoError(err)
    }
}

impl From<ConnectionError> for HandleExit {
    fn from(err: ConnectionError) -> (exit: HandleExit) {
        match err {
            ConnectionError::IoError(err) => HandleExit::IoError(err),
            ConnectionError::Eof => HandleExit::Disconnect(DisconnectError::Eof),
        }
    }
}

impl vstd::std_specs::convert::FromSpecImpl<ConnectionError> for HandleExit {
    open spec fn obeys_from_spec() -> bool {
        true
    }

    open spec fn from_spec(err: ConnectionError) -> HandleExit {
        match err {
            ConnectionError::IoError(err) => HandleExit::IoError(err),
            ConnectionError::Eof => HandleExit::Disconnect(DisconnectError::Eof),
        }
    }
}

/// The name under which peers see the origin of an event: the display token
/// of an address, or `Server` where there is none.
pub open spec fn origin_name(origin: Option<Address>) -> Seq<char> {
    match origin {
        Some(address) => address.token(),
        None => "Server"@,
    }
}

/// The line that a peer is sent for an event from `origin`. A message
/// reads `<origin> text`; anything else reads `origin - description`.
pub open spec fn formatted(origin: Seq<char>, payload: Payload) -> Seq<char> {
    match payload {
        Payload::Message(text) => "<"@ + origin + "> "@ + text + "\n"@,
        _ => origin + " - "@ + description(payload) + "\n"@,
    }
}

/// The line that a peer is sent for `event`.
pub open spec fn rendered(event: EventModel) -> Seq<char> {
    formatted(origin_name(event.origin), event.payload)
}

/// The name under which peers see `origin`.
pub fn display_name(origin: &Option<Address>) -> (name: String)
    ensures
        name@ == origin_name(*origin),
{
    match origin {
        Some(address) => address.hash_to_string(),
        None => String::from_str("Server"),
    }
}

/// The line that a peer is sent for `evt`, whose origin goes by the name
/// `origin`.
pub fn format_event(origin: String, evt: Event) -> (line: String)
    ensures
        line@ == formatted(origin@, evt@.payload),
{
    if let EventType::Message(msg) = evt.event {
        let mut line = String::from_str("<");
        line.append(origin.as_str());
        line.append("> ");
        line.append(msg.content.as_str());
        line.append("\n");
        line
    } else {
        let mut line = origin;
        line.append(" - ");
        line.append(evt.event.description().as_str());
        line.append("\n");
        line
    }
}

/// The line that a peer is sent for `event`.
pub fn render(event: Event) -> (line: String)
    ensures
        line@ == rendered(event@),
{
    let origin = display_name(&event.origin);
    format_event(origin, event)
}

/// Where a session stands. A session starts in `Starting`, is `Active`
/// once its arrival is published, is `Closing` from the moment it has a
/// reason to end, and is `Terminated` for good once its departure has been
/// handed to the bus or the bus has failed it.
#[derive(Clone, Copy, Debug, PartialEq, Eq, Structural)]
pub enum SessionState {
    Starting,
    Active,
    Closing(DisconnectError),
    Terminated,
}

/// How a session ended, and what is left to do about it.
#[derive(Debug)]
pub struct Outcome {
    /// How the task ends.
    pub exit: HandleExit,
    /// For how many nanoseconds from now the address is to be banned, if it
    /// is.
    pub ban: Option<u128>,
    /// Whether the bus took the event that reports the departure.
    pub announced: bool,
}

/// An [`Outcome`] as a mathematical value.
pub struct OutcomeModel {
    pub exit: ExitKind,
    pub ban: Option<u128>,
    pub announced: bool,
}

impl View for Outcome {
    type V = OutcomeModel;

    open spec fn view(&self) -> OutcomeModel {
        OutcomeModel { exit: self.exit@, ban: self.ban, announced: self.announced }
    }
}

/// What a session's task is to do next.
#[derive(Debug)]
pub enum Step {
    /// Wait for the next line or event.
    Wait,
    /// Take one token from the session's limiter, then hand the event to
    /// [`Session::publish`].
    Acquire(Event),
    /// Hand the event to [`Session::publish`].
    Publish(Event),
    /// Write the text to the socket, then tell [`Session::on_written`] how
    /// that went.
    Write(String),
    /// End the task: ban the address where the outcome says so.
    Exit(Outcome),
}

/// A [`Step`] as a mathematical value.
pub enum StepModel {
    Wait,
    Acquire(EventModel),
    Publish(EventModel),
    Write(Seq<char>),
    Exit(OutcomeModel),
}

impl View for Step {
    type V = StepModel;

    open spec fn view(&self) -> StepModel {
        match *self {
            Step::Wait => StepModel::Wait,
            Step::Acquire(event) => StepModel::Acquire(event@),
            Step::Publish(event) => StepModel::Publish(event@),
            Step::Write(text) => StepModel::Write(text@),
            Step::Exit(outcome) => StepModel::Exit(outcome@),
        }
    }
}

/// The event that reports the arrival of the peer at `address`.
pub open spec fn connect_event(address: Address) -> EventModel {
    EventModel { origin: Some(address), payload: Payload::Connect }
}

/// The event that carries a line of chat from the peer at `address`.
pub open spec fn message_event(address: Address, text: Seq<char>) -> EventModel {
    EventModel { origin: Some(address), payload: Payload::Message(text) }
}

/// The event that reports the departure of the peer at `address`.
pub open spec fn disconnect_event(address: Address, reason: DisconnectError) -> EventModel {
    EventModel { origin: Some(address), payload: Payload::Disconnect(reason) }
}

/// How a session ends when the bus fails it: at once, with nothing left to
/// do.
pub open spec fn bus_failure(exit: ExitKind) -> (SessionState, StepModel) {
    (
        SessionState::Terminated,
        StepModel::Exit(OutcomeModel { exit, ban: None, announced: false }),
    )
}

/// A session that has a reason to end: it is `Closing`, and its departure
/// is to be published.
pub open spec fn closing(address: Address, reason: DisconnectError) -> (SessionState, StepModel) {
    (SessionState::Closing(reason), StepModel::Publish(disconnect_event(address, reason)))
}

/// A session that was told of something it does not expect where it stands:
/// it stays as it is, and nothing is to be done.
pub open spec fn ignored(state: SessionState) -> (SessionState, StepModel) {
    (state, StepModel::Wait)
}

/// A new session is asked to start: its arrival is to be published.
pub open spec fn after_start(state: SessionState, address: Address) -> (SessionState, StepModel) {
    if state is Starting {
        (state, StepModel::Publish(connect_event(address)))
    } else {
        ignored(state)
    }
}

/// An active session is told what its socket gave: a message, or `None`
/// where the read failed or the stream has ended. `balance` is the number
/// of tokens in its bucket. An empty message is dropped. Any other message
/// is published after a token is taken, unless the bucket is empty: then
/// the session closes for flooding. Without a message the session closes
/// because the peer is gone.
pub open spec fn after_line(
    state: SessionState,
    address: Address,
    line: Option<Seq<char>>,
    balance: nat,
) -> (SessionState, StepModel) {
    if state is Active {
        match line {
            None => closing(address, DisconnectError::Eof),
            Some(text) => if text.len() == 0 {
                (state, StepModel::Wait)
            } else if balance < 1 {
                closing(address, DisconnectError::Spam)
            } else {
                (state, StepModel::Acquire(message_event(address, text)))
            },
        }
    } else {
        ignored(state)
    }
}

/// An active session is told what one read gave: the text that was read,
/// terminator included, or `None` where the read failed.
pub open spec fn after_read(
    state: SessionState,
    address: Address,
    raw: Option<Seq<char>>,
    balance: nat,
) -> (SessionState, StepModel) {
    after_line(
        state,
        address,
        match raw {
            Some(text) => decoded(text),
            None => None,
        },
        balance,
    )
}

/// An active session is told what its subscription gave. An event is
/// written to the peer. A gap is passed over. A bus that is gone ends the
/// session.
pub open spec fn after_event(state: SessionState, received: Result<EventModel, RecvFailure>) -> (
    SessionState,
    StepModel,
) {
    if state is Active {
        match received {
            Ok(event) => (state, StepModel::Write(rendered(event))),
            Err(RecvFailure::Lagged(_)) => (state, StepModel::Wait),
            Err(RecvFailure::Closed) => bus_failure(ExitKind::RecvError),
        }
    } else {
        ignored(state)
    }
}

/// An active session is told whether the write to its peer succeeded. After
/// a failed write the session closes because the peer is gone.
pub open spec fn after_write(state: SessionState, address: Address, written: bool) -> (
    SessionState,
    StepModel,
) {
    if state is Active {
        if written {
            (state, StepModel::Wait)
        } else {
            closing(address, DisconnectError::Eof)
        }
    } else {
        ignored(state)
    }
}

/// A session is told whether the bus took its event. The arrival makes a
/// starting session active. A bus that takes no event ends a starting or
/// active session. A closing session is terminated either way, and its
/// address is banned if it closes for flooding.
pub open spec fn after_publish(state: SessionState, sent: bool) -> (SessionState, StepModel) {
    match state {
        SessionState::Starting | SessionState::Active => if sent {
            (SessionState::Active, StepModel::Wait)
        } else {
            bus_failure(ExitKind::SendError)
        },
        SessionState::Closing(reason) => (
            SessionState::Terminated,
            StepModel::Exit(
                OutcomeModel {
                    exit: ExitKind::Disconnect(reason),
                    ban: if reason is Spam {
                        Some(BANTIME)
                    } else {
                        None
                    },
                    announced: sent,
                },
            ),
        ),
        SessionState::Terminated => ignored(state),
    }
}

/// What a subscription gave, as a mathematical value.
pub open spec fn received_model(received: Result<Event, RecvError>) -> Result<
    EventModel,
    RecvFailure,
> {
    match received {
        Ok(event) => Ok(event@),
        Err(err) => Err(failure_of(err)),
    }
}

/// The text of a message that was read, if one was.
pub open spec fn line_text(line: Result<Message, ConnectionError>) -> Option<Seq<char>> {
    match line {
        Ok(message) => Some(message@),
        Err(_) => None,
    }
}

/// The text that a read gave, if it gave any.
pub open spec fn read_text(read: Result<String, std::io::Error>) -> Option<Seq<char>> {
    match read {
        Ok(raw) => Some(raw@),
        Err(_) => None,
    }
}

fn close_step(address: Address, reason: DisconnectError) -> (next: (SessionState, Step))
    ensures
        (next.0, next.1@) == closing(address, reason),
{
    let event = Event::new(address, EventType::Disconnect(reason));
    (SessionState::Closing(reason), Step::Publish(event))
}

fn bus_failure_step(exit: HandleExit) -> (next: (SessionState, Step))
    ensures
        (next.0, next.1@) == bus_failure(exit@),
{
    (SessionState::Terminated, Step::Exit(Outcome { exit, ban: None, announced: false }))
}

/// What a session in `state` does when it is asked to start.
pub fn start_step(state: SessionState, address: Address) -> (next: (SessionState, Step))
    ensures
        (next.0, next.1@) == after_start(state, address),
{
    match state {
        SessionState::Starting => (state, Step::Publish(Event::new(address, EventType::Connect))),
        _ => (state, Step::Wait),
    }
}

/// What a session in `state` does with what its socket gave, where its
/// bucket holds `balance` tokens.
pub fn line_step(
    state: SessionState,
    address: Address,
    line: Result<Message, ConnectionError>,
    balance: usize,
) -> (next: (SessionState, Step))
    ensures
        (next.0, next.1@) == after_line(state, address, line_text(line), balance as nat),
{
    match state {
        SessionState::Active => match line {
            Err(_) => close_step(address, DisconnectError::Eof),
            Ok(message) => {
                if message.is_empty() {
                    (state, Step::Wait)
                } else if balance < 1 {
                    close_step(address, DisconnectError::Spam)
                } else {
                    (state, Step::Acquire(Event::new(address, EventType::Message(message))))
                }
            },
        },
        _ => (state, Step::Wait),
    }
}

/// What a session in `state` does with an event from the bus.
pub fn event_step(state: SessionState, event: Event) -> (next: (SessionState, Step))
    ensures
        (next.0, next.1@) == after_event(state, Ok(event@)),
{
    match state {
        SessionState::Active => (state, Step::Write(render(event))),
        _ => (state, Step::Wait),
    }
}

/// What a session in `state` does when its subscription gave no event:
/// `failure` says why, and `err` is what the bus returned.
pub fn recv_failure_step(state: SessionState, failure: RecvFailure, err: RecvError) -> (next: (
    SessionState,
    Step,
))
    ensures
        (next.0, next.1@) == after_event(state, Err(failure)),
{
    match state {
        SessionState::Active => match failure {
            RecvFailure::Lagged(_) => (state, Step::Wait),
            RecvFailure::Closed => bus_failure_step(HandleExit::from(err)),
        },
        _ => (state, Step::Wait),
    }
}

/// What a session in `state` does after a write to its peer.
pub fn write_step(state: SessionState, address: Address, written: Result<(), std::io::Error>) -> (next:
    (SessionState, Step))
    ensures
        (next.0, next.1@) == after_write(state, address, written is Ok),
{
    match state {
        SessionState::Active => match written {
            Ok(_) => (state, Step::Wait),
            Err(_) => close_step(address, DisconnectError::Eof),
        },
        _ => (state, Step::Wait),
    }
}

/// What a session in `state` does once the bus has answered for its event.
pub fn publish_step(state: SessionState, sent: Result<usize, SendError<Event>>) -> (next: (
    SessionState,
    Step,
))
    ensures
        (next.0, next.1@) == after_publish(state, sent is Ok),
{
    match state {
        SessionState::Starting | SessionState::Active => match sent {
            Ok(_) => (SessionState::Active, Step::Wait),
            Err(err) => bus_failure_step(HandleExit::from(err)),
        },
        SessionState::Closing(reason) => {
            let ban = match reason {
                DisconnectError::Spam => Some(BANTIME),
                DisconnectError::Eof => None,
            };
            let outcome = Outcome {
                exit: HandleExit::Disconnect(reason),
                ban,
                announced: sent.is_ok(),
            };
            (SessionState::Terminated, Step::Exit(outcome))
        },
        SessionState::Terminated => (state, Step::Wait),
    }
}

/// The state of one connection: whose it is, where it stands, and its
/// bucket of tokens.
pub struct Session {
    address: Address,
    state: SessionState,
    limiter: RateLimiter,
}

impl Session {
    /// The address of the peer.
    pub closed spec fn spec_address(&self) -> Address {
        self.address
    }

    /// Where the session stands.
    pub closed spec fn spec_state(&self) -> SessionState {
        self.state
    }

    /// A session for the peer at `address`, with a full bucket of its own:
    /// one that holds `BUCKET_MAX` tokens at most, `BUCKET_INITIAL` now, and
    /// gains `BUCKET_REFILL` every `BUCKET_INTERVAL_MILLIS` milliseconds.
    /// Nothing has been published yet.
    pub fn new(address: Address) -> (session: Session)
        ensures
            session.address() == address,
            session.state() == SessionState::Starting,
            limiter_max(session.bucket()) == BUCKET_MAX,
            limiter_initial(session.bucket()) == BUCKET_INITIAL,
            limiter_refill(session.bucket()) == BUCKET_REFILL,
            limiter_interval_millis(session.bucket()) == BUCKET_INTERVAL_MILLIS,
    {
        let limiter = build_limiter(
            BUCKET_MAX,
            BUCKET_INITIAL,
            BUCKET_REFILL,
            BUCKET_INTERVAL_MILLIS,
        );
        Session { address, state: SessionState::Starting, limiter }
    }

    /// The address of the peer.
    #[verifier::when_used_as_spec(spec_address)]
    pub fn address(&self) -> (address: Address)
        ensures
            address == self.address(),
    {
        self.address
    }

    /// Where the session stands.
    #[verifier::when_used_as_spec(spec_state)]
    pub fn state(&self) -> (state: SessionState)
        ensures
            state == self.state(),
    {
        self.state
    }

    /// The session's bucket of tokens.
    pub fn limiter(&self) -> (limiter: &RateLimiter)
        ensures
            *limiter == self.bucket(),
    {
        &self.limiter
    }

    /// The bucket that the session was made with, and whose balance it
    /// reads when a message comes.
    pub closed spec fn bucket(&self) -> RateLimiter {
        self.limiter
    }

    /// Asks a new session to start: its arrival is to be published.
    pub fn start(&mut self) -> (step: Step)
        ensures
            final(self).address() == old(self).address(),
            final(self).bucket() == old(self).bucket(),
            (final(self).state(), step@) == after_start(old(self).state(), old(self).address()),
    {
        let (state, step) = start_step(self.state, self.address);
        self.state = state;
        step
    }

    /// Tells the session what one read from its socket gave: the text that
    /// was read into an empty buffer, or the failure. The bucket is looked
    /// at only where a message came, and whatever it holds then decides
    /// between publishing and closing for flooding.
    pub fn on_read(&mut self, read: Result<String, std::io::Error>) -> (step: Step)
        ensures
            final(self).address() == old(self).address(),
            final(self).bucket() == old(self).bucket(),
            exists|balance: nat|
                (final(self).state(), step@) == #[trigger] after_read(
                    old(self).state(),
                    old(self).address(),
                    read_text(read),
                    balance,
                ),
    {
        let line = match read {
            Ok(raw) => Message::from_line(raw.as_str()),
            Err(err) => Err(ConnectionError::from(err)),
        };
        let asks = match &line {
            Ok(message) => !message.is_empty(),
            Err(_) => false,
        };
        let balance = if asks {
            self.limiter.balance()
        } else {
            BUCKET_MAX
        };
        let (state, step) = line_step(self.state, self.address, line, balance);
        assert((state, step@) == after_read(
            self.state,
            self.address,
            read_text(read),
            balance as nat,
        ));
        self.state = state;
        step
    }

    /// Tells the session what its subscription gave: an event, or why there
    /// is none.
    pub fn on_event(&mut self, received: Result<Event, RecvError>) -> (step: Step)
        ensures
            final(self).address() == old(self).address(),
            final(self).bucket() == old(self).bucket(),
            (final(self).state(), step@) == after_event(
                old(self).state(),
                received_model(received),
            ),
    {
        let (state, step) = match received {
            Ok(event) => event_step(self.state, event),
            Err(err) => {
                let failure = recv_failure(&err);
                recv_failure_step(self.state, failure, err)
            },
        };
        self.state = state;
        step
    }

    /// Tells the session how the write to its peer went.
    pub fn on_written(&mut self, written: Result<(), std::io::Error>) -> (step: Step)
        ensures
            final(self).address() == old(self).address(),
            final(self).bucket() == old(self).bucket(),
            (final(self).state(), step@) == after_write(
                old(self).state(),
                old(self).address(),
                written is Ok,
            ),
    {
        let (state, step) = write_step(self.state, self.address, written);
        self.state = state;
        step
    }

    /// Hands `event` to the bus, unless the session is terminated, and tells
    /// the session how that went. Whether the bus takes the event is the
    /// bus's to say.
    pub fn publish(&mut self, bus: &EventSystem, event: Event) -> (step: Step)
        ensures
            final(self).address() == old(self).address(),
            final(self).bucket() == old(self).bucket(),
            exists|sent: bool|
                (final(self).state(), step@) == #[trigger] after_publish(old(self).state(), sent),
    {
        match self.state {
            SessionState::Terminated => {
                assert((self.state, StepModel::Wait) == after_publish(self.state, true));
                Step::Wait
            },
            _ => {
                let sent = bus.publish(event);
                let (state, step) = publish_step(self.state, sent);
                assert((state, step@) == after_publish(self.state, sent is Ok));
                self.state = state;
                step
            },
        }
    }
}

/// The event that a step hands to the bus, if it hands one.
pub open spec fn published(step: StepModel) -> Option<EventModel> {
    match step {
        StepModel::Acquire(event) => Some(event),
        StepModel::Publish(event) => Some(event),
        _ => None,
    }
}

/// A line that holds more than whitespace, read while the bucket holds a
/// token, is published as a message of the session's own address whose
/// text is the line without the whitespace around it, and nothing else;
/// the session stays active.
pub proof fn line_is_published_trimmed(address: Address, raw: Seq<char>, balance: nat)
    requires
        trimmed(raw).len() > 0,
        balance >= 1,
    ensures
        after_read(SessionState::Active, address, Some(raw), balance) == (
            SessionState::Active,
            StepModel::Acquire(message_event(address, trimmed(raw))),
        ),
{
    trimmed_has_no_outer_whitespace(raw);
}

/// A line that holds nothing but whitespace is dropped, whatever the bucket
/// holds: no event is published, no token is taken, and the session stays
/// active.
pub proof fn blank_line_is_dropped(address: Address, raw: Seq<char>, balance: nat)
    requires
        raw.len() > 0,
        trimmed(raw).len() == 0,
    ensures
        after_read(SessionState::Active, address, Some(raw), balance) == (
            SessionState::Active,
            StepModel::Wait,
        ),
{
}

/// A read that gives nothing, or fails, closes an active session because
/// the peer is gone, whatever the bucket holds.
pub proof fn lost_peer_closes_the_session(address: Address, balance: nat)
    ensures
        after_read(SessionState::Active, address, None, balance) == closing(
            address,
            DisconnectError::Eof,
        ),
        after_read(SessionState::Active, address, Some(Seq::<char>::empty()), balance) == closing(
            address,
            DisconnectError::Eof,
        ),
        after_write(SessionState::Active, address, false) == closing(address, DisconnectError::Eof),
{
}

/// Every event that a session hands to the bus is about the session's own
/// address, and is well formed: a message among them is never empty.
pub proof fn published_events_are_well_formed(
    state: SessionState,
    address: Address,
    raw: Option<Seq<char>>,
    balance: nat,
    received: Result<EventModel, RecvFailure>,
    flag: bool,
)
    ensures
        published(after_start(state, address).1) matches Some(event) ==> event.well_formed()
            && event.origin == Some(address),
        published(after_read(state, address, raw, balance).1) matches Some(event)
            ==> event.well_formed() && event.origin == Some(address),
        published(after_write(state, address, flag).1) matches Some(event) ==> event.well_formed()
            && event.origin == Some(address),
        published(after_event(state, received).1) is None,
        published(after_publish(state, flag).1) is None,
{
}

/// A terminated session stays terminated: whatever it is told, it does not
/// change and asks for nothing.
pub proof fn terminated_is_final(
    address: Address,
    raw: Option<Seq<char>>,
    balance: nat,
    received: Result<EventModel, RecvFailure>,
    flag: bool,
)
    ensures
        after_start(SessionState::Terminated, address) == ignored(SessionState::Terminated),
        after_read(SessionState::Terminated, address, raw, balance) == ignored(
            SessionState::Terminated,
        ),
        after_event(SessionState::Terminated, received) == ignored(SessionState::Terminated),
        after_write(SessionState::Terminated, address, flag) == ignored(SessionState::Terminated),
        after_publish(SessionState::Terminated, flag) == ignored(SessionState::Terminated),
{
}

/// A closing session can only terminate: nothing that it is told makes it
/// active again, and once the bus has answered for its departure it is
/// terminated, with a ban of `BANTIME` exactly when it closes for flooding.
pub proof fn closing_ends_in_terminated(
    reason: DisconnectError,
    address: Address,
    raw: Option<Seq<char>>,
    balance: nat,
    received: Result<EventModel, RecvFailure>,
    flag: bool,
)
    ensures
        after_start(SessionState::Closing(reason), address).0 == SessionState::Closing(reason),
        after_read(SessionState::Closing(reason), address, raw, balance).0
            == SessionState::Closing(reason),
        after_event(SessionState::Closing(reason), received).0 == SessionState::Closing(reason),
        after_write(SessionState::Closing(reason), address, flag).0 == SessionState::Closing(
            reason,
        ),
        after_publish(SessionState::Closing(reason), flag).0 == SessionState::Terminated,
        after_publish(SessionState::Closing(reason), flag).1 matches StepModel::Exit(outcome)
            && outcome.exit == ExitKind::Disconnect(reason) && outcome.announced == flag
            && outcome.ban == (if reason == DisconnectError::Spam {
            Some(BANTIME)
        } else {
            None
        }),
{
}

/// A session closes for flooding in one case only: it is active, a message
/// that is not empty has come, and its bucket is empty.
pub proof fn only_a_flood_is_kicked(
    state: SessionState,
    address: Address,
    line: Option<Seq<char>>,
    balance: nat,
    received: Result<EventModel, RecvFailure>,
    flag: bool,
)
    requires
        state != SessionState::Closing(DisconnectError::Spam),
    ensures
        after_line(state, address, line, balance).0 == SessionState::Closing(DisconnectError::Spam)
            <==> state == SessionState::Active && balance < 1 && (line matches Some(text)
            && text.len() > 0),
        after_start(state, address).0 != SessionState::Closing(DisconnectError::Spam),
        after_event(state, received).0 != SessionState::Closing(DisconnectError::Spam),
        after_write(state, address, flag).0 != SessionState::Closing(DisconnectError::Spam),
        after_publish(state, flag).0 != SessionState::Closing(DisconnectError::Spam),
{
}

/// The state of a session after the messages `texts` have come from its
/// socket one after the other, where its bucket held `balances[i]` tokens
/// when `texts[i]` came and the bus took every message.
pub open spec fn after_lines(
    state: SessionState,
    address: Address,
    texts: Seq<Seq<char>>,
    balances: Seq<nat>,
) -> SessionState
    decreases texts.len(),
{
    if texts.len() == 0 || balances.len() == 0 {
        state
    } else {
        let (next, step) = after_line(state, address, Some(texts.first()), balances.first());
        let settled = if step is Acquire {
            after_publish(next, true).0
        } else {
            next
        };
        after_lines(settled, address, texts.drop_first(), balances.drop_first())
    }
}

/// The balances that a session reads while its bucket is not refilled:
/// after every message that found a token, the bucket holds one less.
pub open spec fn drains(balances: Seq<nat>) -> bool {
    forall|i: int|
        0 <= i < balances.len() - 1 && #[trigger] balances[i] >= 1 ==> balances[i + 1]
            == balances[i] - 1
}

/// A session that is closing stays so whatever lines still come.
proof fn closing_outlasts_lines(
    reason: DisconnectError,
    address: Address,
    texts: Seq<Seq<char>>,
    balances: Seq<nat>,
)
    ensures
        after_lines(SessionState::Closing(reason), address, texts, balances)
            == SessionState::Closing(reason),
    decreases texts.len(),
{
    if texts.len() > 0 && balances.len() > 0 {
        closing_outlasts_lines(reason, address, texts.drop_first(), balances.drop_first());
    }
}

/// More messages than the bucket holds tokens, with no refill between
/// them, close the session for flooding.
proof fn drained_bucket_kicks(address: Address, texts: Seq<Seq<char>>, balances: Seq<nat>)
    requires
        texts.len() == balances.len(),
        texts.len() > 0,
        texts.len() > balances[0],
        forall|i: int| 0 <= i < texts.len() ==> (#[trigger] texts[i]).len() > 0,
        drains(balances),
    ensures
        after_lines(SessionState::Active, address, texts, balances) == SessionState::Closing(
            DisconnectError::Spam,
        ),
    decreases texts.len(),
{
    let rest = texts.drop_first();
    let left = balances.drop_first();
    assert(texts.first().len() > 0);
    if balances[0] < 1 {
        closing_outlasts_lines(DisconnectError::Spam, address, rest, left);
    } else {
        assert(balances[1] == balances[0] - 1);
        assert(left[0] == balances[1]);
        assert forall|i: int| 0 <= i < rest.len() implies (#[trigger] rest[i]).len() > 0 by {
            assert(rest[i] == texts[i + 1]);
        }
        assert forall|i: int| 0 <= i < left.len() - 1 && #[trigger] left[i] >= 1 implies left[i
            + 1] == left[i] - 1 by {
            assert(left[i] == balances[i + 1]);
            assert(left[i + 1] == balances[i + 2]);
        }
        drained_bucket_kicks(address, rest, left);
    }
}

/// A burst is cut off by its eleventh line at the latest. Where an active
/// session gets eleven messages or more, its bucket held no more than
/// `BUCKET_MAX` tokens when the first one came, and it was not refilled in
/// between, the session is closing for flooding once the first eleven have
/// come, and it stays so.
pub proof fn burst_is_kicked_by_the_eleventh_line(
    address: Address,
    texts: Seq<Seq<char>>,
    balances: Seq<nat>,
)
    requires
        texts.len() == balances.len(),
        texts.len() >= BUCKET_MAX + 1,
        forall|i: int| 0 <= i < texts.len() ==> (#[trigger] texts[i]).len() > 0,
        balances[0] <= BUCKET_MAX,
        drains(balances),
    ensures
        after_lines(
            SessionState::Active,
            address,
            texts.take(BUCKET_MAX + 1),
            balances.take(BUCKET_MAX + 1),
        ) == SessionState::Closing(DisconnectError::Spam),
        after_lines(SessionState::Active, address, texts, balances) == SessionState::Closing(
            DisconnectError::Spam,
        ),
{
    let first = texts.take(BUCKET_MAX + 1);
    let held = balances.take(BUCKET_MAX + 1);
    assert(held[0] == balances[0]);
    assert forall|i: int| 0 <= i < first.len() implies (#[trigger] first[i]).len() > 0 by {
        assert(first[i] == texts[i]);
    }
    assert forall|i: int| 0 <= i < held.len() - 1 && #[trigger] held[i] >= 1 implies held[i + 1]
        == held[i] - 1 by {
        assert(held[i] == balances[i]);
        assert(held[i + 1] == balances[i + 1]);
    }
    drained_bucket_kicks(address, first, held);
    drained_bucket_kicks(address, texts, balances);
}

/// The lines that a session writes to its peer for `events`, handed to it
/// in this order by its subscription, where every write succeeds.
pub open spec fn lines_written(state: SessionState, address: Address, events: Seq<EventModel>) -> Seq<
    Seq<char>,
>
    decreases events.len(),
{
    if events.len() == 0 {
        Seq::empty()
    } else {
        let (next, step) = after_event(state, Ok(events.first()));
        match step {
            StepModel::Write(line) => seq![line] + lines_written(
                after_write(next, address, true).0,
                address,
                events.drop_first(),
            ),
            _ => lines_written(next, address, events.drop_first()),
        }
    }
}

/// An active session writes every event that its subscription hands it, in
/// the order in which they come, and each as any other session writes it:
/// the lines are the renderings of the events, whose session it may be, its
/// own events among them.
pub proof fn every_event_is_written_in_order(address: Address, events: Seq<EventModel>)
    ensures
        lines_written(SessionState::Active, address, events) == Seq::new(
            events.len(),
            |i: int| rendered(events[i]),
        ),
    decreases events.len(),
{
    let lines = Seq::new(events.len(), |i: int| rendered(events[i]));
    if events.len() == 0 {
        assert(lines_written(SessionState::Active, address, events) =~= lines);
    } else {
        let rest = events.drop_first();
        every_event_is_written_in_order(address, rest);
        let tail = Seq::new(rest.len(), |i: int| rendered(rest[i]));
        assert(lines =~= seq![rendered(events.first())] + tail);
    }
}

} // verus!
