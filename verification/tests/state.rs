use relay::chat::User;
use relay::hub::{Hub, RecvOutcome};
use relay::message::Message;

fn auth(name: &str) -> Message {
    Message::Auth { name: String::from(name) }
}

fn text(t: &str) -> Message {
    Message::Text { from: String::new(), text: String::from(t) }
}

#[test]
fn auth_then_text_publishes_exactly_once() {
    let mut hub = Hub::new(16);
    let mut sub = hub.subscribe();
    let mut user = User::new();
    user.got(auth("a"), &mut hub);
    user.got(text("hi"), &mut hub);
    match hub.try_receive(&mut sub) {
        RecvOutcome::Message(m) => {
            assert_eq!(m.from, "a");
            assert_eq!(m.text, "hi");
        }
        other => panic!("expected a message, got {:?}", other),
    }
    assert_eq!(hub.try_receive(&mut sub), RecvOutcome::Empty);
}

#[test]
fn text_before_auth_is_dropped() {
    let mut hub = Hub::new(16);
    let mut sub = hub.subscribe();
    let mut user = User::new();
    user.got(text("hi"), &mut hub);
    user.got(auth("a"), &mut hub);
    user.got(text("yo"), &mut hub);
    match hub.try_receive(&mut sub) {
        RecvOutcome::Message(m) => {
            assert_eq!(m.from, "a");
            assert_eq!(m.text, "yo");
        }
        other => panic!("expected a message, got {:?}", other),
    }
    assert_eq!(hub.try_receive(&mut sub), RecvOutcome::Empty);
}

#[test]
fn second_auth_is_rejected() {
    let mut hub = Hub::new(16);
    let mut sub = hub.subscribe();
    let mut user = User::new();
    user.got(auth("a"), &mut hub);
    user.got(auth("b"), &mut hub);
    user.got(text("x"), &mut hub);
    match hub.try_receive(&mut sub) {
        RecvOutcome::Message(m) => {
            assert_eq!(m.from, "a");
            assert_eq!(m.text, "x");
        }
        other => panic!("expected a message, got {:?}", other),
    }
    assert_eq!(hub.try_receive(&mut sub), RecvOutcome::Empty);
}

#[test]
fn wire_from_field_is_ignored() {
    let mut hub = Hub::new(16);
    let mut sub = hub.subscribe();
    let mut user = User::new();
    user.got(auth("real"), &mut hub);
    user.got(Message::Text { from: String::from("forged"), text: String::from("m") }, &mut hub);
    match hub.try_receive(&mut sub) {
        RecvOutcome::Message(m) => assert_eq!(m.from, "real"),
        other => panic!("expected a message, got {:?}", other),
    }
}
