use vstd::prelude::*;

verus! {

/// The protocol value that crosses the wire in binary form.
///
/// `Auth` is a client's claim of a display name; `Text` is a chat utterance.
/// The `from` field of `Text` is server-authoritative: the state machine
/// ignores whatever a client put there, and the server fills it in when it
/// relays a broadcast event back out.
#[derive(Debug, PartialEq, Eq)]
pub enum Message {
    Auth { name: String },
    Text { from: String, text: String },
}

/// The mathematical value of a [`Message`]: its strings as character sequences.
pub enum MessageView {
    Auth { name: Seq<char> },
    Text { from: Seq<char>, text: Seq<char> },
}

impl View for Message {
    type V = MessageView;

    open spec fn view(&self) -> MessageView {
        match self {
            Message::Auth { name } => MessageView::Auth { name: name@ },
            Message::Text { from, text } => MessageView::Text { from: from@, text: text@ },
        }
    }
}

} // verus!
