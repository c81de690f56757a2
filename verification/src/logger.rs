//! The operator's log: one line for each event, with the raw address beside
//! the token that peers see.

use crate::address::Address;
use crate::clienthandle::{received_model, recv_failure, RecvFailure};
use crate::event::{description, Event, EventModel};
use crate::iphash::HashToString;
use tokio::sync::broadcast::error::RecvError;
use vstd::prelude::*;
use vstd::string::*;

verus! {

/// How the log names the origin of an event: `[address] <token>` for a
/// peer, where `address` is the peer's address as text, and `[Server]`
/// where the event has no origin.
pub open spec fn log_origin(origin: Option<Address>, address: Seq<char>) -> Seq<char> {
    match origin {
        Some(ip) => "["@ + address + "] <"@ + ip.token() + ">"@,
        None => "[Server]"@,
    }
}

/// The log's line for `event`: the origin, a space, and what the event
/// reports.
pub open spec fn log_line(event: EventModel, address: Seq<char>) -> Seq<char> {
    log_origin(event.origin, address) + " "@ + description(event.payload)
}

/// The log's line for `evt`, without a line terminator. `address` is the
/// origin's address as text; it is not looked at where the event has no
/// origin.
pub fn format_log(evt: &Event, address: &str) -> (line: String)
    ensures
        line@ == log_line(evt@, address@),
{
    let mut line = match &evt.origin {
        Some(ip) => {
            let mut origin = String::from_str("[");
            origin.append(address);
            origin.append("] <");
            origin.append(ip.hash_to_string().as_str());
            origin.append(">");
            origin
        },
        None => String::from_str("[Server]"),
    };
    line.append(" ");
    line.append(evt.event.description().as_str());
    line
}

/// What the logger is to do next.
#[derive(Debug)]
pub enum LogStep {
    /// Print the line, then wait for the next event.
    Print(String),
    /// Wait for the next event.
    Skip,
    /// Stop: there will be no more events.
    Stop,
}

/// A [`LogStep`] as a mathematical value.
pub enum LogStepModel {
    Print(Seq<char>),
    Skip,
    Stop,
}

impl View for LogStep {
    type V = LogStepModel;

    open spec fn view(&self) -> LogStepModel {
        match *self {
            LogStep::Print(line) => LogStepModel::Print(line@),
            LogStep::Skip => LogStepModel::Skip,
            LogStep::Stop => LogStepModel::Stop,
        }
    }
}

/// What the logger does with what its subscription gave: an event is
/// printed, a gap is passed over, and a bus that is gone stops the logger.
pub open spec fn after_received(received: Result<EventModel, RecvFailure>, address: Seq<char>) -> LogStepModel {
    match received {
        Ok(event) => LogStepModel::Print(log_line(event, address)),
        Err(RecvFailure::Lagged(_)) => LogStepModel::Skip,
        Err(RecvFailure::Closed) => LogStepModel::Stop,
    }
}

/// What the logger does where its subscription gave no event.
pub fn failure_step(failure: RecvFailure) -> (step: LogStep)
    ensures
        step@ == after_received(Err(failure), Seq::<char>::empty()),
{
    match failure {
        RecvFailure::Lagged(_) => LogStep::Skip,
        RecvFailure::Closed => LogStep::Stop,
    }
}

/// Tells the logger what its subscription gave. `address` is the address
/// of the event's origin as text.
pub fn on_received(received: Result<Event, RecvError>, address: &str) -> (step: LogStep)
    ensures
        step@ == after_received(received_model(received), address@),
{
    match received {
        Ok(event) => LogStep::Print(format_log(&event, address)),
        Err(err) => failure_step(recv_failure(&err)),
    }
}

} // verus!
