use aws_iot_core::distributor::EventDistributor;
use aws_iot_core::distributor::OverflowPolicy;
use aws_iot_core::event::InboundEvent;
use aws_iot_core::event::QosLevel;

fn publish(topic: &str, body: &str) -> InboundEvent {
    InboundEvent::Publish {
        topic: topic.to_string(),
        payload: body.as_bytes().to_vec(),
        qos: QosLevel::AtMostOnce,
    }
}

#[test]
fn every_event_after_registration_is_observed_exactly_once() {
    let mut d = EventDistributor::new();
    let a = d.new_consumer_handle(16, OverflowPolicy::DropNewest);
    d.distribute(&publish("t", "before-b"));
    let b = d.new_consumer_handle(16, OverflowPolicy::DropNewest);
    d.distribute(&publish("t", "one"));
    d.distribute(&publish("t", "two"));
    d.distribute(&publish("t", "three"));

    // Handle a sees all four events, in order, each once.
    assert_eq!(d.recv(&a), Some(publish("t", "before-b")));
    assert_eq!(d.recv(&a), Some(publish("t", "one")));
    assert_eq!(d.recv(&a), Some(publish("t", "two")));
    assert_eq!(d.recv(&a), Some(publish("t", "three")));
    assert_eq!(d.recv(&a), None);

    // Handle b never sees the event produced before its registration.
    assert_eq!(d.recv(&b), Some(publish("t", "one")));
    assert_eq!(d.recv(&b), Some(publish("t", "two")));
    assert_eq!(d.recv(&b), Some(publish("t", "three")));
    assert_eq!(d.recv(&b), None);
}

#[test]
fn a_full_undrained_handle_never_affects_its_siblings() {
    let mut d = EventDistributor::new();
    let slow = d.new_consumer_handle(1, OverflowPolicy::DropNewest);
    let fast = d.new_consumer_handle(64, OverflowPolicy::DropNewest);
    for i in 0..50u16 {
        d.distribute(&InboundEvent::PublishAck { id: i });
    }
    // The fast handle got everything even though the slow one has been full
    // since the first event.
    for i in 0..50u16 {
        assert_eq!(d.recv(&fast), Some(InboundEvent::PublishAck { id: i }));
    }
    assert_eq!(d.recv(&fast), None);
    // The slow handle kept only what its own policy kept.
    assert_eq!(d.recv(&slow), Some(InboundEvent::PublishAck { id: 0 }));
    assert_eq!(d.recv(&slow), None);
}

#[test]
fn drop_oldest_keeps_the_newest_events() {
    let mut d = EventDistributor::new();
    let h = d.new_consumer_handle(2, OverflowPolicy::DropOldest);
    d.distribute(&InboundEvent::PublishAck { id: 1 });
    d.distribute(&InboundEvent::PublishAck { id: 2 });
    d.distribute(&InboundEvent::PublishAck { id: 3 });
    assert_eq!(d.recv(&h), Some(InboundEvent::PublishAck { id: 2 }));
    assert_eq!(d.recv(&h), Some(InboundEvent::PublishAck { id: 3 }));
    assert_eq!(d.recv(&h), None);
}

#[test]
fn drop_newest_keeps_the_oldest_events() {
    let mut d = EventDistributor::new();
    let h = d.new_consumer_handle(2, OverflowPolicy::DropNewest);
    d.distribute(&InboundEvent::PublishAck { id: 1 });
    d.distribute(&InboundEvent::PublishAck { id: 2 });
    d.distribute(&InboundEvent::PublishAck { id: 3 });
    assert_eq!(d.recv(&h), Some(InboundEvent::PublishAck { id: 1 }));
    assert_eq!(d.recv(&h), Some(InboundEvent::PublishAck { id: 2 }));
    assert_eq!(d.recv(&h), None);
}

#[test]
fn a_dropped_handle_stops_receiving_and_siblings_continue() {
    let mut d = EventDistributor::new();
    let going = d.new_consumer_handle(8, OverflowPolicy::DropNewest);
    let staying = d.new_consumer_handle(8, OverflowPolicy::DropNewest);
    d.distribute(&InboundEvent::Connected);
    d.drop_handle(going);
    d.distribute(&InboundEvent::Disconnect);
    assert_eq!(d.recv(&staying), Some(InboundEvent::Connected));
    assert_eq!(d.recv(&staying), Some(InboundEvent::Disconnect));
    assert_eq!(d.recv(&staying), None);
}

#[test]
fn events_of_every_kind_fan_out_unchanged() {
    let mut d = EventDistributor::new();
    let h = d.new_consumer_handle(8, OverflowPolicy::DropNewest);
    let events = vec![
        InboundEvent::Connected,
        publish("a/b", "payload"),
        InboundEvent::SubscribeAck {
            id: 9,
            granted: vec![Some(QosLevel::AtLeastOnce), None],
        },
        InboundEvent::UnsubscribeAck { id: 10 },
        InboundEvent::PingRequest,
        InboundEvent::PingResponse,
        InboundEvent::Disconnect,
    ];
    for e in &events {
        d.distribute(e);
    }
    assert_eq!(d.pending(&h), events.len());
    for e in events {
        assert_eq!(d.recv(&h), Some(e));
    }
}
