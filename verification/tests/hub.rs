use relay::chat::ChatMessage;
use relay::hub::{Hub, RecvOutcome};

fn event(from: &str, text: &str) -> ChatMessage {
    ChatMessage { from: String::from(from), text: String::from(text) }
}

#[test]
fn fan_out_to_subscribers_attached_before() {
    let mut hub = Hub::new(16);
    let mut sub_a = hub.subscribe();
    let mut sub_b = hub.subscribe();
    hub.publish(event("n", "shared"));
    let got_a = hub.try_receive(&mut sub_a);
    let got_b = hub.try_receive(&mut sub_b);
    assert_eq!(got_a, got_b);
    assert_eq!(got_a, RecvOutcome::Message(event("n", "shared")));
}

#[test]
fn subscriber_attached_after_publish_sees_nothing() {
    let mut hub = Hub::new(16);
    hub.publish(event("n", "early"));
    let mut late = hub.subscribe();
    assert_eq!(hub.try_receive(&mut late), RecvOutcome::Empty);
}

#[test]
fn publications_arrive_in_publish_order() {
    let mut hub = Hub::new(16);
    let mut sub = hub.subscribe();
    hub.publish(event("n", "one"));
    hub.publish(event("n", "two"));
    hub.publish(event("n", "three"));
    for expected in ["one", "two", "three"] {
        match hub.try_receive(&mut sub) {
            RecvOutcome::Message(m) => assert_eq!(m.text, expected),
            other => panic!("expected a message, got {:?}", other),
        }
    }
    assert_eq!(hub.try_receive(&mut sub), RecvOutcome::Empty);
}

#[test]
fn overload_lags_then_resumes_at_oldest_retained() {
    let mut hub = Hub::new(4);
    assert_eq!(hub.capacity(), 4);
    let mut sub = hub.subscribe();
    for i in 0..7u32 {
        hub.publish(event("n", &format!("m{}", i)));
    }
    // 7 events through a ring of 4: m0..m2 are gone, m3..m6 retained.
    assert_eq!(hub.try_receive(&mut sub), RecvOutcome::Lagged);
    for expected in ["m3", "m4", "m5", "m6"] {
        match hub.try_receive(&mut sub) {
            RecvOutcome::Message(m) => assert_eq!(m.text, expected),
            other => panic!("expected a message, got {:?}", other),
        }
    }
    assert_eq!(hub.try_receive(&mut sub), RecvOutcome::Empty);
}

#[test]
fn caught_up_subscriber_never_lags() {
    let mut hub = Hub::new(2);
    let mut sub = hub.subscribe();
    for i in 0..10u32 {
        hub.publish(event("n", &format!("m{}", i)));
        match hub.try_receive(&mut sub) {
            RecvOutcome::Message(m) => assert_eq!(m.text, format!("m{}", i)),
            other => panic!("expected a message, got {:?}", other),
        }
    }
}

#[test]
fn dropping_one_subscriber_leaves_another_undisturbed() {
    let mut hub = Hub::new(16);
    let sub_a = hub.subscribe();
    let mut sub_b = hub.subscribe();
    hub.publish(event("n", "before"));
    drop(sub_a);
    hub.publish(event("n", "after"));
    for expected in ["before", "after"] {
        match hub.try_receive(&mut sub_b) {
            RecvOutcome::Message(m) => assert_eq!(m.text, expected),
            other => panic!("expected a message, got {:?}", other),
        }
    }
}
