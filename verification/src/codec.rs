//! Binary message codec: serializes structured protocol messages to a
//! compact, length-governed wire representation and parses them back.
//!
//! The wire layout of a message is a fixed header followed by the payload
//! bytes: a one-byte format tag, then the sequence number, the operation
//! code and the payload length, each as a four-byte little-endian word,
//! then the payload itself. A decoded message owns all of its field data —
//! the input buffer may be reused or freed the instant `deserialize`
//! returns — so no lifetime tricks are needed anywhere in the decode path.

use vstd::bytes::{
    lemma_auto_spec_u32_to_from_le_bytes, spec_u32_from_le_bytes, spec_u32_to_le_bytes,
    u32_from_le_bytes, u32_to_le_bytes,
};
use vstd::prelude::*;
use vstd::slice::{slice_index_get, slice_subrange};

verus! {

/// First byte of every encoded message; anything else is not this schema.
pub const MESSAGE_TAG: u8 = 0xA7;

/// Bytes of header before the payload: tag, sequence, opcode, length.
pub const HEADER_LEN: usize = 13;

/// Schema bound on the payload size of a single message.
pub const MAX_PAYLOAD_LEN: usize = 0xFF_FFFF;

/// A structured protocol message: a sequence number correlating it with a
/// request, an operation code, and an opaque payload that the message owns.
#[derive(Debug, Clone, PartialEq, Eq)]
pub struct Message {
    pub seq: u32,
    pub op: u32,
    pub payload: Vec<u8>,
}

/// The mathematical value of a [`Message`].
pub ghost struct MessageView {
    pub seq: u32,
    pub op: u32,
    pub payload: Seq<u8>,
}

impl View for Message {
    type V = MessageView;

    open spec fn view(&self) -> MessageView {
        MessageView { seq: self.seq, op: self.op, payload: self.payload@ }
    }
}

/// Why a message could not be encoded: it violates a schema constraint.
#[derive(Debug, Clone, Copy, PartialEq, Eq)]
pub enum EncodeError {
    /// The payload exceeds [`MAX_PAYLOAD_LEN`].
    PayloadTooLarge,
}

/// Why a byte buffer could not be parsed as a message.
#[derive(Debug, Clone, Copy, PartialEq, Eq)]
pub enum DecodeError {
    /// The buffer ends before the header, or before the payload the header
    /// announces.
    Truncated,
    /// The first byte is not [`MESSAGE_TAG`].
    InvalidTag,
    /// The header announces a payload beyond [`MAX_PAYLOAD_LEN`].
    PayloadTooLarge,
    /// The buffer continues past the announced end of the message.
    TrailingBytes,
}

/// The wire encoding of a message value.
pub open spec fn spec_encode(m: MessageView) -> Seq<u8>
    recommends
        m.payload.len() <= MAX_PAYLOAD_LEN,
{
    seq![MESSAGE_TAG] + spec_u32_to_le_bytes(m.seq) + spec_u32_to_le_bytes(m.op)
        + spec_u32_to_le_bytes(m.payload.len() as u32) + m.payload
}

/// The message value a byte buffer holds, or the exact reason it holds none.
pub open spec fn spec_decode(b: Seq<u8>) -> Result<MessageView, DecodeError> {
    if b.len() < HEADER_LEN {
        Err(DecodeError::Truncated)
    } else if b[0] != MESSAGE_TAG {
        Err(DecodeError::InvalidTag)
    } else {
        let plen = spec_u32_from_le_bytes(b.subrange(9, 13)) as nat;
        if plen > MAX_PAYLOAD_LEN {
            Err(DecodeError::PayloadTooLarge)
        } else if b.len() < HEADER_LEN + plen {
            Err(DecodeError::Truncated)
        } else if b.len() > HEADER_LEN + plen {
            Err(DecodeError::TrailingBytes)
        } else {
            Ok(
                MessageView {
                    seq: spec_u32_from_le_bytes(b.subrange(1, 5)),
                    op: spec_u32_from_le_bytes(b.subrange(5, 9)),
                    payload: b.subrange(13, b.len() as int),
                },
            )
        }
    }
}

impl Message {
    /// The exact number of bytes `serialize` will produce, used to pre-size
    /// the output buffer and avoid reallocation.
    pub fn encoded_len(&self) -> (r: usize)
        requires
            self@.payload.len() <= MAX_PAYLOAD_LEN,
        ensures
            r == spec_encode(self@).len(),
    {
        proof {
            lemma_auto_spec_u32_to_from_le_bytes();
        }
        HEADER_LEN + self.payload.len()
    }
}

/// Encodes a message for the wire. Succeeds and yields exactly
/// `spec_encode` of the message whenever the payload respects the schema
/// bound; otherwise reports `PayloadTooLarge` and nothing is produced.
pub fn serialize(msg: &Message) -> (r: Result<Vec<u8>, EncodeError>)
    ensures
        match r {
            Ok(bytes) => msg@.payload.len() <= MAX_PAYLOAD_LEN && bytes@ == spec_encode(msg@),
            Err(e) => msg@.payload.len() > MAX_PAYLOAD_LEN && e == EncodeError::PayloadTooLarge,
        },
{
    if msg.payload.len() > MAX_PAYLOAD_LEN {
        return Err(EncodeError::PayloadTooLarge);
    }
    let mut out: Vec<u8> = Vec::with_capacity(msg.encoded_len());
    out.push(MESSAGE_TAG);
    let mut word = u32_to_le_bytes(msg.seq);
    out.append(&mut word);
    let mut word = u32_to_le_bytes(msg.op);
    out.append(&mut word);
    let mut word = u32_to_le_bytes(msg.payload.len() as u32);
    out.append(&mut word);
    let ghost header: Seq<u8> = seq![MESSAGE_TAG] + spec_u32_to_le_bytes(msg.seq)
        + spec_u32_to_le_bytes(msg.op) + spec_u32_to_le_bytes(msg@.payload.len() as u32);
    proof {
        assert(out@ =~= header + msg.payload@.subrange(0, 0));
    }
    let mut i: usize = 0;
    while i < msg.payload.len()
        invariant
            i <= msg.payload.len(),
            msg@.payload.len() <= MAX_PAYLOAD_LEN,
            out@ == header + msg.payload@.subrange(0, i as int),
        decreases msg.payload.len() - i,
    {
        out.push(msg.payload[i]);
        proof {
            assert(out@ =~= header + msg.payload@.subrange(0, i + 1));
        }
        i += 1;
    }
    proof {
        assert(msg.payload@.subrange(0, msg.payload@.len() as int) =~= msg.payload@);
        assert(out@ =~= spec_encode(msg@));
    }
    Ok(out)
}

/// Parses a message from a byte buffer, copying all field data into an
/// owned value; the buffer is not retained. The result — success or the
/// precise error — is exactly what `spec_decode` says of the buffer.
pub fn deserialize(buf: &[u8]) -> (r: Result<Message, DecodeError>)
    ensures
        match r {
            Ok(m) => spec_decode(buf@) == Ok::<MessageView, DecodeError>(m@),
            Err(e) => spec_decode(buf@) == Err::<MessageView, DecodeError>(e),
        },
{
    if buf.len() < HEADER_LEN {
        return Err(DecodeError::Truncated);
    }
    let tag = *slice_index_get(buf, 0);
    if tag != MESSAGE_TAG {
        return Err(DecodeError::InvalidTag);
    }
    let seq = u32_from_le_bytes(slice_subrange(buf, 1, 5));
    let op = u32_from_le_bytes(slice_subrange(buf, 5, 9));
    let plen_word = u32_from_le_bytes(slice_subrange(buf, 9, 13));
    let plen = plen_word as usize;
    if plen > MAX_PAYLOAD_LEN {
        return Err(DecodeError::PayloadTooLarge);
    }
    if buf.len() < HEADER_LEN + plen {
        return Err(DecodeError::Truncated);
    }
    if buf.len() > HEADER_LEN + plen {
        return Err(DecodeError::TrailingBytes);
    }
    let mut payload: Vec<u8> = Vec::with_capacity(plen);
    let mut i: usize = HEADER_LEN;
    while i < buf.len()
        invariant
            HEADER_LEN <= i <= buf@.len(),
            payload@ == buf@.subrange(HEADER_LEN as int, i as int),
        decreases buf@.len() - i,
    {
        payload.push(*slice_index_get(buf, i));
        proof {
            assert(payload@ =~= buf@.subrange(HEADER_LEN as int, i + 1));
        }
        i += 1;
    }
    let m = Message { seq, op, payload };
    proof {
        assert(m@.payload == buf@.subrange(13, buf@.len() as int));
    }
    Ok(m)
}

/// Law: the codec round-trips. Decoding the encoding of any message value
/// that respects the schema bound yields exactly that value again — every
/// field, including the payload bytes, is reproduced.
pub proof fn lemma_codec_round_trip(m: MessageView)
    requires
        m.payload.len() <= MAX_PAYLOAD_LEN,
    ensures
        spec_decode(spec_encode(m)) == Ok::<MessageView, DecodeError>(m),
{
    lemma_auto_spec_u32_to_from_le_bytes();
    let b = spec_encode(m);
    let sseq = spec_u32_to_le_bytes(m.seq);
    let sop = spec_u32_to_le_bytes(m.op);
    let slen = spec_u32_to_le_bytes(m.payload.len() as u32);
    assert(b.len() == 13 + m.payload.len());
    assert(b[0] == MESSAGE_TAG);
    assert(b.subrange(9, 13) =~= slen);
    assert(spec_u32_from_le_bytes(b.subrange(9, 13)) == m.payload.len());
    assert(b.subrange(1, 5) =~= sseq);
    assert(b.subrange(5, 9) =~= sop);
    assert(b.subrange(13, b.len() as int) =~= m.payload);
}

/// The transport frame around an encoded message: the body's length as a
/// four-byte little-endian prefix, then the body. The codec owns message
/// delimiting; the byte stream itself guarantees no boundaries.
pub open spec fn spec_frame(body: Seq<u8>) -> Seq<u8>
    recommends
        body.len() <= u32::MAX,
{
    spec_u32_to_le_bytes(body.len() as u32) + body
}

/// Law: framing round-trips. The frame of a body announces exactly the
/// body's length in its prefix and carries the body unchanged after it,
/// so a reader that takes the announced number of bytes after the prefix
/// recovers the body exactly.
pub proof fn lemma_frame_round_trip(body: Seq<u8>)
    requires
        body.len() <= u32::MAX,
    ensures
        spec_frame(body).len() == 4 + body.len(),
        spec_u32_from_le_bytes(spec_frame(body).subrange(0, 4)) == body.len(),
        spec_frame(body).subrange(4, spec_frame(body).len() as int) == body,
{
    lemma_auto_spec_u32_to_from_le_bytes();
    let f = spec_frame(body);
    assert(f.subrange(0, 4) =~= spec_u32_to_le_bytes(body.len() as u32));
    assert(f.subrange(4, f.len() as int) =~= body);
}

/// Wraps an encoded message body in its transport frame.
pub fn frame(body: Vec<u8>) -> (r: Vec<u8>)
    requires
        body@.len() <= u32::MAX,
    ensures
        r@ == spec_frame(body@),
{
    let mut out = u32_to_le_bytes(body.len() as u32);
    let mut rest = body;
    out.append(&mut rest);
    out
}

/// Reads the body length out of the four-byte frame prefix, so a reader
/// loop knows how many bytes make up the next message.
pub fn frame_body_len(prefix: &[u8]) -> (r: u32)
    requires
        prefix@.len() == 4,
    ensures
        r == spec_u32_from_le_bytes(prefix@),
        forall|body: Seq<u8>|
            body.len() <= u32::MAX && prefix@ == #[trigger] spec_frame(body).subrange(0, 4)
                ==> r == body.len(),
{
    proof {
        lemma_auto_spec_u32_to_from_le_bytes();
        assert forall|body: Seq<u8>|
            body.len() <= u32::MAX && prefix@ == #[trigger] spec_frame(body).subrange(0, 4)
            implies spec_u32_from_le_bytes(prefix@) == body.len() by {
            assert(spec_frame(body).subrange(0, 4) =~= spec_u32_to_le_bytes(body.len() as u32));
        }
    }
    u32_from_le_bytes(prefix)
}

} // verus!
