use crate::chat::{spec_step, ChatMessage, User};
use crate::codec::{encode, parse_msg, wire_bytes, EncodeError};
use crate::hub::Hub;
use crate::message::{Message, MessageView};
use vstd::prelude::*;

verus! {

/// One transport frame, as the connection task's inbound loop sees it: plain
/// chat text, a binary-encoded [`Message`], a control frame, or a close.
#[derive(Debug, PartialEq, Eq)]
pub enum Frame {
    Text(String),
    Binary(Vec<u8>),
    Ping,
    Pong,
    Close,
}

impl User {
    /// Applies one inbound transport frame to this connection. Returns
    /// whether the inbound loop goes on.
    ///
    /// A text frame is a `Text` utterance with no asserted sender; a binary
    /// frame is decoded and, when well-formed, applied as [`spec_step`] says,
    /// while a malformed one stops the loop and changes nothing; ping and
    /// pong are handled by the transport and change nothing; a close frame
    /// stops the loop.
    pub fn handle_frame(&mut self, frame: Frame, hub: &mut Hub) -> (cont: bool)
        requires
            old(hub)@.wf(),
            old(hub)@.head < u64::MAX,
        ensures
            final(hub)@.wf(),
            match frame {
                Frame::Text(t) => cont && (final(self)@, final(hub)@) == spec_step(
                    old(self)@,
                    old(hub)@,
                    MessageView::Text { from: Seq::empty(), text: t@ },
                ),
                Frame::Binary(b) => match parse_msg(b@) {
                    Some(p) => cont && (final(self)@, final(hub)@) == spec_step(
                        old(self)@,
                        old(hub)@,
                        p.0,
                    ),
                    None => !cont && final(self)@ == old(self)@ && final(hub)@ == old(hub)@,
                },
                Frame::Ping | Frame::Pong => cont && final(self)@ == old(self)@ && final(hub)@
                    == old(hub)@,
                Frame::Close => !cont && final(self)@ == old(self)@ && final(hub)@ == old(hub)@,
            },
    {
        match frame {
            Frame::Text(text) => {
                self.got(Message::Text { from: String::new(), text }, hub);
                true
            },
            Frame::Binary(buf) => {
                match crate::codec::decode(buf.as_slice()) {
                    Ok(message) => {
                        self.got(message, hub);
                        true
                    },
                    Err(_) => false,
                }
            },
            Frame::Ping => true,
            Frame::Pong => true,
            Frame::Close => false,
        }
    }
}

/// Encodes one broadcast event for replay to a subscriber's socket: the
/// binary frame of a `Text` message whose sender is the server-side name.
pub fn outbound_frame(m: &ChatMessage) -> (r: Result<Vec<u8>, EncodeError>)
    ensures
        match r {
            Ok(b) => b@ == wire_bytes(
                MessageView::Text { from: m@.from, text: m@.text },
            ),
            Err(_) => wire_bytes(MessageView::Text { from: m@.from, text: m@.text }).len()
                > u32::MAX,
        },
{
    let message = Message::Text { from: m.from.clone(), text: m.text.clone() };
    let mut buf: Vec<u8> = Vec::new();
    match encode(&message, &mut buf) {
        Ok(_n) => Ok(buf),
        Err(e) => Err(e),
    }
}

} // verus!
