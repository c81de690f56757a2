use chat_relay::address::Address;
use chat_relay::clienthandle::DisconnectError;
use chat_relay::connection::Message;
use chat_relay::event::{Event, EventType};
use chat_relay::iphash::HashToString;
use chat_relay::logger::{failure_step, format_log, on_received, LogStep};
use chat_relay::clienthandle::RecvFailure;
use tokio::sync::broadcast::error::RecvError;

#[test]
fn log_line_shows_address_and_token() {
    let ip = Address::V4(0x7f00_0001);
    let token = ip.hash_to_string();
    let evt = Event::new(ip, EventType::Connect);
    assert_eq!(
        format_log(&evt, "127.0.0.1"),
        format!("[127.0.0.1] <{}> connected to the server", token)
    );
}

#[test]
fn log_line_of_a_message_shows_its_text() {
    let ip = Address::V6(1);
    let token = ip.hash_to_string();
    let evt = Event::new(ip, EventType::Message(Message { content: "hello".to_string() }));
    assert_eq!(format_log(&evt, "::1"), format!("[::1] <{}> hello", token));
}

#[test]
fn log_line_of_a_departure() {
    let ip = Address::V4(1);
    let token = ip.hash_to_string();
    let evt = Event::new(ip, EventType::Disconnect(DisconnectError::Eof));
    assert_eq!(
        format_log(&evt, "0.0.0.1"),
        format!("[0.0.0.1] <{}> disconnected from the server", token)
    );
    let evt = Event::new(ip, EventType::Disconnect(DisconnectError::Spam));
    assert_eq!(
        format_log(&evt, "0.0.0.1"),
        format!("[0.0.0.1] <{}> has been kicked for spamming", token)
    );
}

#[test]
fn log_line_of_a_server_event() {
    let evt = Event { origin: None, event: EventType::Connect };
    assert_eq!(format_log(&evt, "ignored"), "[Server] connected to the server");
}

#[test]
fn logger_prints_each_event() {
    let ip = Address::V4(0x7f00_0001);
    let evt = Event::new(ip, EventType::Connect);
    match on_received(Ok(evt), "127.0.0.1") {
        LogStep::Print(line) => assert_eq!(
            line,
            format!("[127.0.0.1] <{}> connected to the server", ip.hash_to_string())
        ),
        other => panic!("unexpected {:?}", other),
    }
}

#[test]
fn logger_passes_over_a_gap() {
    assert!(matches!(on_received(Err(RecvError::Lagged(5)), ""), LogStep::Skip));
    assert!(matches!(failure_step(RecvFailure::Lagged(5)), LogStep::Skip));
}

#[test]
fn logger_stops_when_the_bus_is_gone() {
    assert!(matches!(on_received(Err(RecvError::Closed), ""), LogStep::Stop));
    assert!(matches!(failure_step(RecvFailure::Closed), LogStep::Stop));
}
