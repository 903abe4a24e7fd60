use component_daemon::component::{Component, ComponentType};
use component_daemon::hub::Hub;

fn comp(id: &str, data: &str) -> Component {
    Component {
        id: id.to_string(),
        kind: ComponentType::Card,
        data: data.to_string(),
        created_at: "2024-01-01T00:00:00Z".to_string(),
    }
}

#[test]
fn subscriber_attached_before_publishes_receives_all_in_order() {
    let mut hub = Hub::new(10);
    let h = hub.attach();
    hub.publish(&comp("a", "1"));
    hub.publish(&comp("b", "2"));
    hub.publish(&comp("c", "3"));
    assert_eq!(hub.try_next(h).unwrap().id, "a");
    assert_eq!(hub.try_next(h).unwrap().id, "b");
    assert_eq!(hub.try_next(h).unwrap().id, "c");
    assert!(hub.try_next(h).is_none());
}

#[test]
fn late_subscriber_receives_no_backlog() {
    let mut hub = Hub::new(10);
    hub.publish(&comp("a", "1"));
    hub.publish(&comp("b", "2"));
    let h = hub.attach();
    assert!(hub.try_next(h).is_none());
    hub.publish(&comp("c", "3"));
    assert_eq!(hub.try_next(h).unwrap().id, "c");
    assert!(hub.try_next(h).is_none());
}

#[test]
fn saturated_subscriber_drops_oldest_for_newest() {
    let mut hub = Hub::new(2);
    let h = hub.attach();
    hub.publish(&comp("a", "1"));
    hub.publish(&comp("b", "2"));
    // the buffer is full and the consumer is not reading: the next publish
    // returns immediately and replaces the oldest buffered entity
    hub.publish(&comp("c", "3"));
    assert_eq!(hub.try_next(h).unwrap().id, "b");
    assert_eq!(hub.try_next(h).unwrap().id, "c");
    assert!(hub.try_next(h).is_none());
}

#[test]
fn slow_consumer_does_not_affect_other_subscribers() {
    let mut hub = Hub::new(1);
    let slow = hub.attach();
    let fast = hub.attach();
    hub.publish(&comp("a", "1"));
    assert_eq!(hub.try_next(fast).unwrap().id, "a");
    hub.publish(&comp("b", "2"));
    assert_eq!(hub.try_next(fast).unwrap().id, "b");
    // the slow subscriber kept only the newest
    assert_eq!(hub.try_next(slow).unwrap().id, "b");
    assert!(hub.try_next(slow).is_none());
}

#[test]
fn detach_is_idempotent_and_local() {
    let mut hub = Hub::new(4);
    let h1 = hub.attach();
    let h2 = hub.attach();
    hub.publish(&comp("a", "1"));
    hub.detach(h1);
    hub.detach(h1);
    assert!(hub.try_next(h1).is_none());
    assert_eq!(hub.try_next(h2).unwrap().id, "a");
    hub.publish(&comp("b", "2"));
    assert_eq!(hub.try_next(h2).unwrap().id, "b");
}

#[test]
fn handles_are_never_reused() {
    let mut hub = Hub::new(4);
    let h1 = hub.attach();
    hub.detach(h1);
    let h2 = hub.attach();
    assert_ne!(h1, h2);
}
