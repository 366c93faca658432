use crate::message::{Message, MessageView};
use vstd::bytes::{
    lemma_auto_spec_u32_to_from_le_bytes, lemma_auto_spec_u64_to_from_le_bytes,
    spec_u32_from_le_bytes, spec_u32_to_le_bytes, spec_u64_from_le_bytes, spec_u64_to_le_bytes,
    u32_from_le_bytes, u32_to_le_bytes, u64_from_le_bytes, u64_to_le_bytes,
};
use vstd::prelude::*;
use vstd::slice::{slice_subrange, slice_to_vec};
use vstd::string::StrSliceExecFns;
use vstd::utf8::{
    decode_utf8, encode_utf8, encode_utf8_decode_utf8, encode_utf8_valid_utf8, valid_utf8,
};

verus! {

/// Variant tag of `Message::Auth` on the wire.
pub const AUTH_TAG: u32 = 0;

/// Variant tag of `Message::Text` on the wire.
pub const TEXT_TAG: u32 = 1;

/// Decoding failed: the buffer is truncated, carries an unknown variant tag,
/// has a string length prefix exceeding the remaining bytes, or holds invalid
/// UTF-8 where a string was expected.
#[derive(Debug, PartialEq, Eq)]
pub struct MalformedMessage;

/// Encoding failed: the serialized form would be longer than the reported
/// `u32` byte count can express.
#[derive(Debug, PartialEq, Eq)]
pub struct EncodeError;

/// The bytes of one string field: an 8-byte little-endian byte count followed
/// by the string's UTF-8 bytes, with no padding and no terminator.
pub open spec fn field_bytes(s: Seq<char>) -> Seq<u8> {
    spec_u64_to_le_bytes(encode_utf8(s).len() as u64) + encode_utf8(s)
}

/// The serialized form of a message: a 4-byte little-endian variant tag
/// followed by that variant's fields in declaration order.
pub open spec fn wire_bytes(v: MessageView) -> Seq<u8> {
    match v {
        MessageView::Auth { name } => spec_u32_to_le_bytes(AUTH_TAG) + field_bytes(name),
        MessageView::Text { from, text } => spec_u32_to_le_bytes(TEXT_TAG) + field_bytes(from)
            + field_bytes(text),
    }
}

/// Whether every field of the message is short enough for its byte count to
/// fit the 64-bit length prefix. Every message held in memory satisfies this.
pub open spec fn length_fits(v: MessageView) -> bool {
    match v {
        MessageView::Auth { name } => encode_utf8(name).len() <= u64::MAX,
        MessageView::Text { from, text } => encode_utf8(from).len() <= u64::MAX
            && encode_utf8(text).len() <= u64::MAX,
    }
}

/// Parses one string field at offset `i`: `None` when the buffer is too short
/// for the length prefix, the prefix exceeds the remaining bytes, or the bytes
/// are not valid UTF-8; otherwise the field's characters and the offset just
/// past the field.
pub open spec fn parse_field(b: Seq<u8>, i: int) -> Option<(Seq<char>, int)> {
    if i + 8 <= b.len() {
        let n = spec_u64_from_le_bytes(b.subrange(i, i + 8)) as int;
        if i + 8 + n <= b.len() {
            let chunk = b.subrange(i + 8, i + 8 + n);
            if valid_utf8(chunk) {
                Some((decode_utf8(chunk), i + 8 + n))
            } else {
                None
            }
        } else {
            None
        }
    } else {
        None
    }
}

/// Parses a message from the front of `b`: `None` exactly when no serialized
/// message starts there; otherwise the message's value and the number of bytes
/// it occupies. Bytes past that count are not looked at.
pub open spec fn parse_msg(b: Seq<u8>) -> Option<(MessageView, int)> {
    if b.len() < 4 {
        None
    } else {
        let tag = spec_u32_from_le_bytes(b.subrange(0, 4));
        if tag == AUTH_TAG {
            match parse_field(b, 4) {
                Some((name, end)) => Some((MessageView::Auth { name }, end)),
                None => None,
            }
        } else if tag == TEXT_TAG {
            match parse_field(b, 4) {
                Some((from, mid)) => match parse_field(b, mid) {
                    Some((text, end)) => Some((MessageView::Text { from, text }, end)),
                    None => None,
                },
                None => None,
            }
        } else {
            None
        }
    }
}

/// Relies on `String::from_utf8`: it returns `Ok` exactly when the bytes are
/// valid UTF-8, and the returned string's characters are then the decoding of
/// those bytes. `vstd::utf8` is the model, the same one `vstd` assumes for
/// `str::as_bytes`.
#[verifier::external_body]
fn bytes_to_string(v: Vec<u8>) -> (r: Option<String>)
    ensures
        match r {
            Some(s) => valid_utf8(v@) && s@ == decode_utf8(v@),
            None => !valid_utf8(v@),
        },
{
    String::from_utf8(v).ok()
}

/// Reads one length-prefixed string field at offset `i`, exactly as
/// [`parse_field`] describes.
fn read_field(buf: &[u8], i: usize) -> (r: Option<(String, usize)>)
    requires
        i <= buf@.len(),
    ensures
        match r {
            Some(p) => {
                &&& parse_field(buf@, i as int) == Some((p.0@, p.1 as int))
                &&& i <= p.1 <= buf@.len()
            },
            None => parse_field(buf@, i as int) is None,
        },
{
    if buf.len() - i < 8 {
        return None;
    }
    let len_slice = slice_subrange(buf, i, i + 8);
    let n64 = u64_from_le_bytes(len_slice);
    let rem = buf.len() - i - 8;
    if n64 > rem as u64 {
        return None;
    }
    let n = n64 as usize;
    let chunk = slice_subrange(buf, i + 8, i + 8 + n);
    let bytes = slice_to_vec(chunk);
    match bytes_to_string(bytes) {
        Some(s) => Some((s, i + 8 + n)),
        None => None,
    }
}

/// Decodes a message from the front of `buf`. Returns the message whose
/// serialized form starts the buffer, and `MalformedMessage` exactly when no
/// message's serialized form does; never panics and never reads out of
/// bounds on any input.
pub fn decode(buf: &[u8]) -> (r: Result<Message, MalformedMessage>)
    ensures
        match r {
            Ok(m) => parse_msg(buf@) matches Some(p) && p.0 == m@,
            Err(_) => parse_msg(buf@) is None,
        },
{
    if buf.len() < 4 {
        return Err(MalformedMessage);
    }
    let tag = u32_from_le_bytes(slice_subrange(buf, 0, 4));
    if tag == AUTH_TAG {
        match read_field(buf, 4) {
            Some((name, _end)) => Ok(Message::Auth { name }),
            None => Err(MalformedMessage),
        }
    } else if tag == TEXT_TAG {
        match read_field(buf, 4) {
            Some((from, mid)) => match read_field(buf, mid) {
                Some((text, _end)) => Ok(Message::Text { from, text }),
                None => Err(MalformedMessage),
            },
            None => Err(MalformedMessage),
        }
    } else {
        Err(MalformedMessage)
    }
}

/// Appends the serialized form of `message` to `buf` and returns the number
/// of bytes appended. Fails, leaving `buf` untouched, exactly when that
/// number would not fit a `u32`.
pub fn encode(message: &Message, buf: &mut Vec<u8>) -> (r: Result<u32, EncodeError>)
    ensures
        match r {
            Ok(n) => {
                &&& final(buf)@ == old(buf)@ + wire_bytes(message@)
                &&& n as int == wire_bytes(message@).len()
            },
            Err(_) => {
                &&& final(buf)@ == old(buf)@
                &&& wire_bytes(message@).len() > u32::MAX
            },
        },
{
    proof {
        lemma_auto_spec_u32_to_from_le_bytes();
        lemma_auto_spec_u64_to_from_le_bytes();
    }
    match message {
        Message::Auth { name } => {
            let nb = name.as_str().as_bytes_vec();
            if nb.len() as u64 > u32::MAX as u64 - 12 {
                return Err(EncodeError);
            }
            let total: u64 = 12 + nb.len() as u64;
            let mut out = u32_to_le_bytes(AUTH_TAG);
            let mut len_bytes = u64_to_le_bytes(nb.len() as u64);
            out.append(&mut len_bytes);
            let mut nb = nb;
            out.append(&mut nb);
            assert(out@ =~= wire_bytes(message@));
            buf.append(&mut out);
            Ok(total as u32)
        },
        Message::Text { from, text } => {
            let fb = from.as_str().as_bytes_vec();
            let tb = text.as_str().as_bytes_vec();
            if fb.len() as u64 > u32::MAX as u64 || tb.len() as u64 > u32::MAX as u64 {
                return Err(EncodeError);
            }
            let total: u64 = 20 + fb.len() as u64 + tb.len() as u64;
            if total > u32::MAX as u64 {
                return Err(EncodeError);
            }
            let mut out = u32_to_le_bytes(TEXT_TAG);
            let mut flen_bytes = u64_to_le_bytes(fb.len() as u64);
            out.append(&mut flen_bytes);
            let mut fb = fb;
            out.append(&mut fb);
            let mut tlen_bytes = u64_to_le_bytes(tb.len() as u64);
            out.append(&mut tlen_bytes);
            let mut tb = tb;
            out.append(&mut tb);
            assert(out@ =~= wire_bytes(message@));
            buf.append(&mut out);
            Ok(total as u32)
        },
    }
}

/// Round trip: parsing the serialized form of a message, with any trailing
/// bytes after it, yields exactly that message back and consumes exactly its
/// serialized bytes. Together with the contracts of [`encode`] and
/// [`decode`], this says that `decode` undoes `encode` on every message the
/// codec can serialize.
pub proof fn lemma_round_trip(v: MessageView, tail: Seq<u8>)
    requires
        length_fits(v),
    ensures
        parse_msg(wire_bytes(v) + tail) == Some((v, wire_bytes(v).len() as int)),
{
    lemma_auto_spec_u32_to_from_le_bytes();
    lemma_auto_spec_u64_to_from_le_bytes();
    let w = wire_bytes(v) + tail;
    match v {
        MessageView::Auth { name } => {
            let u = encode_utf8(name);
            let n = u.len() as u64;
            assert(w.subrange(0, 4) =~= spec_u32_to_le_bytes(AUTH_TAG));
            assert(w.subrange(4, 12) =~= spec_u64_to_le_bytes(n));
            assert(spec_u64_from_le_bytes(w.subrange(4, 12)) == n);
            assert(12 + u.len() <= w.len());
            assert(w.subrange(12, 12 + u.len() as int) =~= u);
            encode_utf8_valid_utf8(name);
            encode_utf8_decode_utf8(name);
            assert(parse_field(w, 4) == Some((name, 12 + u.len() as int)));
            assert(wire_bytes(v).len() == 12 + u.len());
        },
        MessageView::Text { from, text } => {
            let uf = encode_utf8(from);
            let ut = encode_utf8(text);
            let nf = uf.len() as u64;
            let nt = ut.len() as u64;
            let mid = 12 + uf.len() as int;
            assert(w.subrange(0, 4) =~= spec_u32_to_le_bytes(TEXT_TAG));
            assert(w.subrange(4, 12) =~= spec_u64_to_le_bytes(nf));
            assert(w.subrange(12, mid) =~= uf);
            encode_utf8_valid_utf8(from);
            encode_utf8_decode_utf8(from);
            assert(parse_field(w, 4) == Some((from, mid)));
            assert(w.subrange(mid, mid + 8) =~= spec_u64_to_le_bytes(nt));
            assert(w.subrange(mid + 8, mid + 8 + ut.len() as int) =~= ut);
            encode_utf8_valid_utf8(text);
            encode_utf8_decode_utf8(text);
            assert(parse_field(w, mid) == Some((text, mid + 8 + ut.len() as int)));
            assert(wire_bytes(v).len() == 20 + uf.len() + ut.len());
        },
    }
}

} // verus!
