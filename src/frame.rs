use crate::error::Error;
use crate::packet::{encode_packet, kind_tag, PacketKind};
use vstd::prelude::*;
use vstd::utf8::valid_utf8;

verus! {

#[verifier::external_type_specification]
#[verifier::external_body]
pub struct ExBytes(bytes::Bytes);

/// The bytes that a `bytes::Bytes` holds, in order.
pub uninterp spec fn bytes_contents(b: bytes::Bytes) -> Seq<u8>;

/// Relies on `impl From<Vec<u8>> for bytes::Bytes`: the buffer takes over the
/// vector's bytes.
#[verifier::external_body]
fn bytes_from_vec(v: Vec<u8>) -> (r: bytes::Bytes)
    ensures
        bytes_contents(r) == v@,
{
    bytes::Bytes::from(v)
}

/// Relies on `bytes::Bytes`'s `Deref` to `[u8]`: a copy of the bytes it holds.
#[verifier::external_body]
fn bytes_to_vec(b: &bytes::Bytes) -> (r: Vec<u8>)
    ensures
        r@ == bytes_contents(*b),
{
    b.to_vec()
}

/// Relies on `std::str::from_utf8`: it succeeds exactly on valid UTF-8.
#[verifier::external_body]
fn is_utf8(b: &[u8]) -> (r: bool)
    ensures
        r == valid_utf8(b@),
{
    std::str::from_utf8(b).is_ok()
}

/// The opcode of a frame of the channel.
#[derive(Clone, Copy, Debug, PartialEq, Eq, Structural)]
pub enum Opcode {
    Continuation,
    Text,
    Binary,
    Close,
    Ping,
    Pong,
    Reserved,
}

/// One frame of the channel: an opcode and a payload.
#[derive(Clone, Debug, PartialEq, Eq)]
pub struct Frame {
    pub opcode: Opcode,
    pub payload: Vec<u8>,
}

/// The frame that `emit` sends: binary data goes verbatim in a binary frame,
/// anything else must be UTF-8 and goes in a text frame.
pub open spec fn emitted(data: Seq<u8>, is_binary: bool) -> Option<(Opcode, Seq<u8>)> {
    if is_binary {
        Some((Opcode::Binary, data))
    } else if valid_utf8(data) {
        Some((Opcode::Text, data))
    } else {
        None
    }
}

/// What `poll` hands up for a received frame: a binary payload behind the
/// message tag, any other payload as it came, since it is an encoded packet already.
pub open spec fn polled(opcode: Opcode, payload: Seq<u8>) -> Seq<u8> {
    if opcode == Opcode::Binary {
        seq![kind_tag(PacketKind::Message)] + payload
    } else {
        payload
    }
}

/// The frame to send for `data`; non-UTF-8 data meant as text is refused and
/// no frame is made.
pub fn emit_frame(data: &bytes::Bytes, is_binary: bool) -> (r: Result<Frame, Error>)
    ensures
        match emitted(bytes_contents(*data), is_binary) {
            Some((opcode, payload)) => r matches Ok(f) && f.opcode == opcode && f.payload@
                == payload,
            None => r == Err::<Frame, Error>(Error::InvalidUtf8),
        },
{
    let payload = bytes_to_vec(data);
    if is_binary {
        Ok(Frame { opcode: Opcode::Binary, payload })
    } else if is_utf8(payload.as_slice()) {
        Ok(Frame { opcode: Opcode::Text, payload })
    } else {
        Err(Error::InvalidUtf8)
    }
}

/// The packet bytes carried by a received frame.
pub fn poll_message(frame: Frame) -> (r: bytes::Bytes)
    ensures
        bytes_contents(r) == polled(frame.opcode, frame.payload@),
{
    match frame.opcode {
        Opcode::Binary => bytes_from_vec(encode_packet(PacketKind::Message, frame.payload.as_slice())),
        _ => bytes_from_vec(frame.payload),
    }
}

} // verus!
