use vstd::prelude::*;

verus! {

/// The kinds of packet that the protocol exchanges.
#[derive(Clone, Copy, Debug, PartialEq, Eq, Structural)]
pub enum PacketKind {
    Open,
    Close,
    Ping,
    Pong,
    Message,
    Upgrade,
    Noop,
}

/// The byte that leads an encoded packet of this kind: its ASCII digit.
pub open spec fn kind_tag(kind: PacketKind) -> u8 {
    match kind {
        PacketKind::Open => 0x30,
        PacketKind::Close => 0x31,
        PacketKind::Ping => 0x32,
        PacketKind::Pong => 0x33,
        PacketKind::Message => 0x34,
        PacketKind::Upgrade => 0x35,
        PacketKind::Noop => 0x36,
    }
}

/// The wire form of a packet: its tag followed by its payload.
pub open spec fn encoded(kind: PacketKind, payload: Seq<u8>) -> Seq<u8> {
    seq![kind_tag(kind)] + payload
}

impl PacketKind {
    /// The tag byte of this kind.
    pub fn tag(self) -> (r: u8)
        ensures
            r == kind_tag(self),
    {
        match self {
            PacketKind::Open => 0x30,
            PacketKind::Close => 0x31,
            PacketKind::Ping => 0x32,
            PacketKind::Pong => 0x33,
            PacketKind::Message => 0x34,
            PacketKind::Upgrade => 0x35,
            PacketKind::Noop => 0x36,
        }
    }
}

/// Encodes a packet of `kind` carrying `payload`.
pub fn encode_packet(kind: PacketKind, payload: &[u8]) -> (r: Vec<u8>)
    ensures
        r@ == encoded(kind, payload@),
{
    let mut out: Vec<u8> = Vec::new();
    out.push(kind.tag());
    let mut i: usize = 0;
    while i < payload.len()
        invariant
            i <= payload@.len(),
            out@ == seq![kind_tag(kind)] + payload@.subrange(0, i as int),
        decreases payload@.len() - i,
    {
        out.push(payload[i]);
        i += 1;
        assert(payload@.subrange(0, i as int) == payload@.subrange(0, (i - 1) as int).push(payload@[i - 1]));
    }
    assert(payload@.subrange(0, payload@.len() as int) == payload@);
    out
}

} // verus!
