use crate::hub::{spec_publish, Hub, HubView};
use crate::message::{Message, MessageView};
use vstd::prelude::*;

verus! {

/// The internal broadcast event: one authenticated utterance, carrying the
/// sender's display name and the text. Immutable once constructed.
#[derive(Debug, PartialEq, Eq)]
pub struct ChatMessage {
    pub from: String,
    pub text: String,
}

/// The mathematical value of a [`ChatMessage`].
pub struct ChatView {
    pub from: Seq<char>,
    pub text: Seq<char>,
}

impl View for ChatMessage {
    type V = ChatView;

    open spec fn view(&self) -> ChatView {
        ChatView { from: self.from@, text: self.text@ }
    }
}

impl Clone for ChatMessage {
    fn clone(&self) -> (r: Self)
        ensures
            r == *self,
    {
        ChatMessage { from: self.from.clone(), text: self.text.clone() }
    }
}

/// Per-connection state: `None` until the first `Auth` message is accepted,
/// then `Some(name)` for the connection's remaining lifetime.
pub struct User {
    name: Option<String>,
}

/// The mathematical state of a [`User`].
pub struct UserView {
    pub name: Option<Seq<char>>,
}

impl View for User {
    type V = UserView;

    closed spec fn view(&self) -> UserView {
        match self.name {
            Some(ref n) => UserView { name: Some(n@) },
            None => UserView { name: None },
        }
    }
}

/// The connection state machine's transition: what one decoded message does
/// to the connection state and to the hub.
///
/// An `Auth` names a previously unauthenticated user and is otherwise
/// discarded (first writer wins, no rename); it never publishes. A `Text`
/// from a named user publishes one event carrying the server-side name (the
/// wire `from` field is ignored); a `Text` before authentication is silently
/// discarded.
pub open spec fn spec_step(u: UserView, h: HubView, m: MessageView) -> (UserView, HubView) {
    match m {
        MessageView::Auth { name } => {
            (
                if u.name is Some {
                    u
                } else {
                    UserView { name: Some(name) }
                },
                h,
            )
        },
        MessageView::Text { from: _, text } => {
            match u.name {
                Some(n) => (u, spec_publish(h, ChatView { from: n, text })),
                None => (u, h),
            }
        },
    }
}

impl User {
    /// A fresh, unauthenticated connection state.
    pub fn new() -> (u: User)
        ensures
            u@.name is None,
    {
        User { name: None }
    }

    /// Applies one decoded message to this connection's state, publishing to
    /// the hub exactly when [`spec_step`] says so.
    pub fn got(&mut self, message: Message, hub: &mut Hub)
        requires
            old(hub)@.wf(),
            old(hub)@.head < u64::MAX,
        ensures
            final(hub)@.wf(),
            (final(self)@, final(hub)@) == spec_step(old(self)@, old(hub)@, message@),
    {
        match message {
            Message::Auth { name } => {
                if self.name.is_none() {
                    self.name = Some(name);
                }
            },
            Message::Text { from: _, text } => {
                match &self.name {
                    Some(n) => {
                        hub.publish(ChatMessage { from: n.clone(), text });
                    },
                    None => {},
                }
            },
        }
    }
}

} // verus!
