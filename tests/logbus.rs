use appwave::events::StreamLogEvent;
use appwave::logbus::{LogBus, Received, LOG_BUS_CAPACITY};

fn info(n: u32) -> StreamLogEvent {
    StreamLogEvent::Info { message: format!("event {}", n) }
}

fn message_of(e: &StreamLogEvent) -> String {
    match e {
        StreamLogEvent::Info { message } | StreamLogEvent::Error { message } | StreamLogEvent::Debug { message } => {
            message.clone()
        }
        StreamLogEvent::Frame { frame_number } => format!("frame {}", frame_number),
    }
}

#[test]
fn subscriber_sees_events_published_after_subscribing() {
    let mut bus = LogBus::new(LOG_BUS_CAPACITY);
    bus.publish(info(0));
    let mut sub = bus.subscribe();
    bus.publish(info(1));
    bus.publish(info(2));
    match bus.receive(&mut sub) {
        Received::Event(e) => assert_eq!(message_of(&e), "event 1"),
        other => panic!("unexpected {:?}", other),
    }
    match bus.receive(&mut sub) {
        Received::Event(e) => assert_eq!(message_of(&e), "event 2"),
        other => panic!("unexpected {:?}", other),
    }
    assert!(matches!(bus.receive(&mut sub), Received::Empty));
    assert_eq!(bus.published(), 3);
}

#[test]
fn lagging_subscriber_gets_one_notice_then_resumes() {
    let mut bus = LogBus::new(4);
    let mut slow = bus.subscribe();
    let mut fast = bus.subscribe();
    for n in 0..10 {
        bus.publish(info(n));
        // the fast subscriber keeps up and loses nothing
        match bus.receive(&mut fast) {
            Received::Event(e) => assert_eq!(message_of(&e), format!("event {}", n)),
            other => panic!("unexpected {:?}", other),
        }
    }
    // 10 published, 4 held: the slow one missed 6
    assert!(matches!(bus.receive(&mut slow), Received::Lagged(6)));
    for n in 6..10 {
        match bus.receive(&mut slow) {
            Received::Event(e) => assert_eq!(message_of(&e), format!("event {}", n)),
            other => panic!("unexpected {:?}", other),
        }
    }
    assert!(matches!(bus.receive(&mut slow), Received::Empty));
}

#[test]
fn lag_becomes_a_debug_notice_in_the_log_stream() {
    let mut bus = LogBus::new(2);
    let mut sub = bus.subscribe();
    for n in 0..5 {
        bus.publish(info(n));
    }
    match bus.next_log_item(&mut sub) {
        Some(StreamLogEvent::Debug { message }) => {
            assert_eq!(message, "Skipped 3 log messages due to buffer overflow")
        }
        other => panic!("unexpected {:?}", other),
    }
    assert_eq!(message_of(&bus.next_log_item(&mut sub).unwrap()), "event 3");
    assert_eq!(message_of(&bus.next_log_item(&mut sub).unwrap()), "event 4");
    assert!(bus.next_log_item(&mut sub).is_none());
    assert_eq!(sub.cursor(), 5);
}

#[test]
fn full_bus_keeps_the_newest_events() {
    let mut bus = LogBus::new(LOG_BUS_CAPACITY);
    let mut sub = bus.subscribe();
    for n in 0..300 {
        bus.publish(info(n));
    }
    assert!(matches!(bus.receive(&mut sub), Received::Lagged(44)));
    match bus.receive(&mut sub) {
        Received::Event(e) => assert_eq!(message_of(&e), "event 44"),
        other => panic!("unexpected {:?}", other),
    }
}
