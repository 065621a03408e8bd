use workflow_core::bus::{MessageBus, TailAnchor, TailAnchorResponse};
use workflow_core::tags::TagSet;

fn user_tags(id: &str) -> TagSet {
    let mut t = TagSet::new();
    t.insert("user_id".to_string(), id.to_string());
    t
}

fn publish_update(bus: &mut MessageBus, user: &str, body: &str) -> u64 {
    bus.publish(
        "user.update".to_string(),
        user_tags(user),
        body.to_string(),
        7,
        1000,
    )
}

#[test]
fn tail_read_returns_latest_matching() {
    let mut bus = MessageBus::new();
    publish_update(&mut bus, "U1", "first");
    publish_update(&mut bus, "U2", "other");
    publish_update(&mut bus, "U1", "second");
    let got = bus
        .tail_read(&"user.update".to_string(), &user_tags("U1"))
        .expect("a matching message was published");
    assert_eq!(got.body, "second");
    assert_eq!(got.seq, 2);
}

#[test]
fn tail_read_without_match_is_none() {
    let mut bus = MessageBus::new();
    publish_update(&mut bus, "U1", "x");
    assert!(bus.tail_read(&"user.update".to_string(), &user_tags("U2")).is_none());
    assert!(bus.tail_read(&"user.delete".to_string(), &user_tags("U1")).is_none());
}

#[test]
fn tail_anchor_returns_messages_after_anchor_in_order() {
    let mut bus = MessageBus::new();
    publish_update(&mut bus, "U1", "before");
    let anchor = TailAnchor { offset: bus.len() as u64 };
    publish_update(&mut bus, "U1", "a");
    publish_update(&mut bus, "U2", "noise");
    publish_update(&mut bus, "U1", "b");
    match bus.tail_anchor(&"user.update".to_string(), &user_tags("U1"), &anchor) {
        TailAnchorResponse::Messages { messages, anchor: next } => {
            let bodies: Vec<&str> = messages.iter().map(|m| m.body.as_str()).collect();
            assert_eq!(bodies, vec!["a", "b"]);
            assert_eq!(next.offset, 4);
        }
        TailAnchorResponse::NoNewMessages => panic!("expected two new messages"),
    }
}

#[test]
fn tail_anchor_is_idempotent_without_publishes() {
    let mut bus = MessageBus::new();
    publish_update(&mut bus, "U1", "a");
    let first = bus.tail_anchor(
        &"user.update".to_string(),
        &user_tags("U1"),
        &TailAnchor { offset: 0 },
    );
    let anchor = match first {
        TailAnchorResponse::Messages { anchor, .. } => anchor,
        TailAnchorResponse::NoNewMessages => panic!("expected the published message"),
    };
    // no intervening publishes: nothing new, twice
    assert!(matches!(
        bus.tail_anchor(&"user.update".to_string(), &user_tags("U1"), &anchor),
        TailAnchorResponse::NoNewMessages
    ));
    assert!(matches!(
        bus.tail_anchor(&"user.update".to_string(), &user_tags("U1"), &anchor),
        TailAnchorResponse::NoNewMessages
    ));
}

#[test]
fn tail_anchor_past_end_reads_nothing() {
    let mut bus = MessageBus::new();
    publish_update(&mut bus, "U1", "a");
    assert!(matches!(
        bus.tail_anchor(
            &"user.update".to_string(),
            &user_tags("U1"),
            &TailAnchor { offset: 99 },
        ),
        TailAnchorResponse::NoNewMessages
    ));
}

#[test]
fn subscriber_with_matching_filter_receives_publish() {
    let mut bus = MessageBus::new();
    let mut sub_u1 = bus.subscribe("user.update".to_string(), user_tags("U1"));
    let mut sub_u2 = bus.subscribe("user.update".to_string(), user_tags("U2"));
    publish_update(&mut bus, "U1", "hello");
    let got = sub_u1.next(&bus).expect("U1 subscriber must see the message");
    assert_eq!(got.body, "hello");
    assert_eq!(got.message_name, "user.update");
    assert!(sub_u2.next(&bus).is_none());
}

#[test]
fn subscriber_sees_only_messages_after_subscribing_in_order() {
    let mut bus = MessageBus::new();
    publish_update(&mut bus, "U1", "too-early");
    let mut sub = bus.subscribe("user.update".to_string(), user_tags("U1"));
    publish_update(&mut bus, "U1", "one");
    publish_update(&mut bus, "U2", "noise");
    publish_update(&mut bus, "U1", "two");
    assert_eq!(sub.next(&bus).unwrap().body, "one");
    assert_eq!(sub.next(&bus).unwrap().body, "two");
    assert!(sub.next(&bus).is_none());
}

#[test]
fn subscription_lifecycle_ends_closed() {
    let bus = MessageBus::new();
    let mut sub = bus.subscribe("user.update".to_string(), user_tags("U1"));
    assert!(sub.is_live());
    sub.close();
    assert!(!sub.is_live());
}

#[test]
fn publish_assigns_sequence_in_order() {
    let mut bus = MessageBus::new();
    assert_eq!(publish_update(&mut bus, "U1", "a"), 0);
    assert_eq!(publish_update(&mut bus, "U1", "b"), 1);
    assert_eq!(bus.len(), 2);
}
