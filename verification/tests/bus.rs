use winx_application::bus::EventBus;
use winx_application::events::DomainEvent;
use winx_application::ids::DeviceId;

fn sample_event() -> DomainEvent {
    DomainEvent::DeviceCreated { device_id: DeviceId(1), fingerprint: "AB:CD:EF:01:23:45:67:89".to_string() }
}

#[test]
fn publish_with_no_subscribers_does_not_panic() {
    let bus = EventBus::new();
    bus.publish(sample_event());
    assert_eq!(bus.subscriber_count(), 0);
}

#[test]
fn subscriber_receives_event() {
    let bus = EventBus::new();
    let mut rx = bus.subscribe();
    bus.publish(sample_event());
    let evt = rx.try_recv().unwrap();
    assert!(matches!(evt, DomainEvent::DeviceCreated { .. }));
}

#[test]
fn clones_share_the_channel() {
    let bus = EventBus::with_capacity(4);
    let other = bus.clone_handle();
    let mut rx = bus.subscribe();
    other.publish_all(vec![sample_event(), DomainEvent::PeerDisappeared { peer_id: winx_application::ids::PeerId(2) }]);
    assert!(matches!(rx.try_recv().unwrap(), DomainEvent::DeviceCreated { .. }));
    assert!(matches!(rx.try_recv().unwrap(), DomainEvent::PeerDisappeared { .. }));
    assert_eq!(other.subscriber_count(), 1);
}
