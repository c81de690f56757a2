use chat_relay::address::Address;
use chat_relay::clienthandle::DisconnectError;
use chat_relay::connection::Message;
use chat_relay::event::{Event, EventSystem, EventType, BUS_CAPACITY};
use tokio::sync::broadcast::error::TryRecvError;

fn said(origin: u32, text: &str) -> Event {
    Event::new(Address::V4(origin), EventType::Message(Message { content: text.to_string() }))
}

#[test]
fn descriptions_are_the_fixed_phrases() {
    assert_eq!(EventType::Connect.description(), "connected to the server");
    assert_eq!(
        EventType::Disconnect(DisconnectError::Eof).description(),
        "disconnected from the server"
    );
    assert_eq!(
        EventType::Disconnect(DisconnectError::Spam).description(),
        "has been kicked for spamming"
    );
    let message = EventType::Message(Message { content: "hey you".to_string() });
    assert_eq!(message.description(), "hey you");
}

#[test]
fn new_event_carries_its_origin() {
    let event = Event::new(Address::V6(9), EventType::Connect);
    assert_eq!(event.origin, Some(Address::V6(9)));
    assert_eq!(event.event, EventType::Connect);
    assert_eq!(event, Event { origin: Some(Address::V6(9)), event: EventType::Connect });
}

#[test]
fn bus_capacity_is_fifty() {
    assert_eq!(BUS_CAPACITY, 50);
}

#[test]
fn publish_fails_while_nobody_is_subscribed() {
    let bus = EventSystem::new(BUS_CAPACITY);
    let refused = bus.publish(said(1, "lost")).unwrap_err();
    assert_eq!(refused.0, said(1, "lost"));
    let _rx = bus.subscribe();
    assert_eq!(bus.publish(said(1, "found")).unwrap(), 1);
}

#[test]
fn publish_counts_the_subscriptions() {
    let bus = EventSystem::new(BUS_CAPACITY);
    let _a = bus.subscribe();
    let _b = bus.subscribe();
    let c = bus.subscribe();
    assert_eq!(bus.publish(said(1, "x")).unwrap(), 3);
    drop(c);
    assert_eq!(bus.publish(said(1, "y")).unwrap(), 2);
}

#[test]
fn every_subscription_sees_every_event_in_publish_order() {
    let bus = EventSystem::new(BUS_CAPACITY);
    let mut subscriptions = vec![bus.subscribe(), bus.subscribe(), bus.subscribe(), bus.subscribe()];
    let mut sent = Vec::new();
    sent.push(Event::new(Address::V4(1), EventType::Connect));
    for i in 0..40u32 {
        sent.push(said(i % 3, &format!("line {}", i)));
    }
    sent.push(Event::new(Address::V4(2), EventType::Disconnect(DisconnectError::Spam)));
    for event in &sent {
        assert_eq!(bus.publish(event.clone()).unwrap(), 4);
    }
    for rx in subscriptions.iter_mut() {
        let mut seen = Vec::new();
        loop {
            match rx.try_recv() {
                Ok(event) => seen.push(event),
                Err(TryRecvError::Empty) => break,
                Err(other) => panic!("unexpected {:?}", other),
            }
        }
        assert_eq!(seen, sent);
    }
}

#[test]
fn subscription_sees_only_what_is_published_after_it() {
    let bus = EventSystem::new(BUS_CAPACITY);
    let mut early = bus.subscribe();
    bus.publish(said(1, "first")).unwrap();
    let mut late = bus.subscribe();
    bus.publish(said(1, "second")).unwrap();
    assert_eq!(early.try_recv().unwrap(), said(1, "first"));
    assert_eq!(early.try_recv().unwrap(), said(1, "second"));
    assert_eq!(late.try_recv().unwrap(), said(1, "second"));
    assert_eq!(late.try_recv(), Err(TryRecvError::Empty));
}

#[test]
fn slow_subscription_loses_the_oldest_events_and_goes_on() {
    let bus = EventSystem::new(BUS_CAPACITY);
    let mut slow = bus.subscribe();
    let mut quick = bus.subscribe();
    let total = 200u32;
    for i in 0..total {
        // The publisher is never held up by the subscription that does not read.
        assert_eq!(bus.publish(said(1, &format!("{}", i))).unwrap(), 2);
        assert_eq!(quick.try_recv().unwrap(), said(1, &format!("{}", i)));
    }
    let skipped = match slow.try_recv() {
        Err(TryRecvError::Lagged(skipped)) => skipped,
        other => panic!("expected a gap, got {:?}", other),
    };
    assert!(skipped >= 1);
    assert!(total as u64 - skipped >= BUS_CAPACITY as u64);
    let mut next = skipped as u32;
    loop {
        match slow.try_recv() {
            Ok(event) => {
                assert_eq!(event, said(1, &format!("{}", next)));
                next += 1;
            }
            Err(TryRecvError::Empty) => break,
            Err(other) => panic!("unexpected {:?}", other),
        }
    }
    assert_eq!(next, total);
}

#[test]
fn sender_handle_feeds_the_same_bus() {
    let bus = EventSystem::new(BUS_CAPACITY);
    let mut rx = bus.subscribe();
    let tx = bus.sender();
    assert_eq!(tx.send(said(7, "via handle")).unwrap(), 1);
    assert_eq!(bus.publish(said(7, "via bus")).unwrap(), 1);
    assert_eq!(rx.try_recv().unwrap(), said(7, "via handle"));
    assert_eq!(rx.try_recv().unwrap(), said(7, "via bus"));
}

#[test]
fn bus_of_capacity_one_still_delivers() {
    let bus = EventSystem::new(1);
    let mut rx = bus.subscribe();
    bus.publish(said(1, "a")).unwrap();
    assert_eq!(rx.try_recv().unwrap(), said(1, "a"));
    bus.publish(said(1, "b")).unwrap();
    bus.publish(said(1, "c")).unwrap();
    assert_eq!(rx.try_recv(), Err(TryRecvError::Lagged(1)));
    assert_eq!(rx.try_recv().unwrap(), said(1, "c"));
}

#[test]
fn sender_handles_share_one_channel() {
    let bus = EventSystem::new(BUS_CAPACITY);
    let first = bus.sender();
    let second = bus.sender();
    assert!(first.same_channel(&second));
    let other = EventSystem::new(BUS_CAPACITY);
    assert!(!first.same_channel(&other.sender()));
    let mut rx = bus.subscribe();
    assert_eq!(first.send(said(3, "one")).unwrap(), 1);
    assert_eq!(second.send(said(3, "two")).unwrap(), 1);
    assert_eq!(rx.try_recv().unwrap(), said(3, "one"));
    assert_eq!(rx.try_recv().unwrap(), said(3, "two"));
    assert!(other.publish(said(3, "nobody")).is_err());
}

#[test]
fn subscriptions_belong_to_their_bus() {
    let bus = EventSystem::new(BUS_CAPACITY);
    let other = EventSystem::new(BUS_CAPACITY);
    let mut first = bus.subscribe();
    let second = bus.subscribe();
    let mut apart = other.subscribe();
    assert!(first.same_channel(&second));
    assert!(!first.same_channel(&apart));
    assert_eq!(bus.publish(said(5, "here")).unwrap(), 2);
    assert_eq!(first.try_recv().unwrap(), said(5, "here"));
    assert_eq!(apart.try_recv(), Err(TryRecvError::Empty));
}
