use crate::error::Error;
use crate::frame::{Frame, Opcode};
use crate::packet::{encode_packet, encoded, PacketKind};
use vstd::prelude::*;

verus! {

/// Where the probe/upgrade handshake stands.
#[derive(Clone, Copy, Debug, PartialEq, Eq, Structural)]
pub enum UpgradeState {
    /// Nothing sent yet.
    Idle,
    /// The probe ping is being sent.
    SendingProbe,
    /// The probe went out; one frame is awaited.
    AwaitingReply,
    /// The reply matched; the upgrade packet is being sent.
    SendingUpgrade,
    /// The upgrade packet went out: the channel carries the traffic from now on.
    Upgraded,
    /// The handshake was abandoned.
    Failed,
}

/// What the caller reports to the handshake.
#[derive(Clone, Debug, PartialEq, Eq)]
pub enum UpgradeEvent {
    /// The caller holds both directions of the channel and starts.
    Begin,
    /// The frame asked for was sent in full.
    Sent,
    /// One frame came in.
    Received(Frame),
}

/// What the handshake asks the caller to do next.
#[derive(Clone, Debug, PartialEq, Eq)]
pub enum UpgradeAction {
    /// Send this frame, then report `Sent`.
    Send(Frame),
    /// Receive one frame, then report it.
    Receive,
    /// The handshake is complete.
    Done,
    /// The handshake failed; nothing more is to be sent.
    Abort(Error),
}

/// An action, with the frame to send as plain values.
pub enum ActionView {
    Send(Opcode, Seq<u8>),
    Receive,
    Done,
    Abort(Error),
}

/// The payload of the probe ping and of its reply: `probe`.
pub open spec fn probe_payload() -> Seq<u8> {
    seq![0x70u8, 0x72u8, 0x6fu8, 0x62u8, 0x65u8]
}

/// The frame that proves the channel: the encoded ping packet of the probe, as text.
pub open spec fn probe_frame() -> ActionView {
    ActionView::Send(Opcode::Text, encoded(PacketKind::Ping, probe_payload()))
}

/// The frame that completes the handshake: the encoded upgrade packet with no payload, as text.
pub open spec fn upgrade_frame() -> ActionView {
    ActionView::Send(Opcode::Text, encoded(PacketKind::Upgrade, Seq::empty()))
}

/// Whether a received frame is the peer's answer to the probe: a text frame that
/// holds exactly the encoded pong packet of the probe.
pub open spec fn is_probe_reply(f: Frame) -> bool {
    f.opcode == Opcode::Text && f.payload@ == encoded(PacketKind::Pong, probe_payload())
}

/// An action as plain values.
pub open spec fn view_action(a: UpgradeAction) -> ActionView {
    match a {
        UpgradeAction::Send(f) => ActionView::Send(f.opcode, f.payload@),
        UpgradeAction::Receive => ActionView::Receive,
        UpgradeAction::Done => ActionView::Done,
        UpgradeAction::Abort(e) => ActionView::Abort(e),
    }
}

/// One step of the handshake: the next state and the action for the caller.
/// An event that the state does not expect ends the handshake in failure.
pub open spec fn next(state: UpgradeState, event: UpgradeEvent) -> (UpgradeState, ActionView) {
    match (state, event) {
        (UpgradeState::Idle, UpgradeEvent::Begin) => (UpgradeState::SendingProbe, probe_frame()),
        (UpgradeState::SendingProbe, UpgradeEvent::Sent) => (
            UpgradeState::AwaitingReply,
            ActionView::Receive,
        ),
        (UpgradeState::AwaitingReply, UpgradeEvent::Received(f)) => if is_probe_reply(f) {
            (UpgradeState::SendingUpgrade, upgrade_frame())
        } else {
            (UpgradeState::Failed, ActionView::Abort(Error::InvalidPacket))
        },
        (UpgradeState::SendingUpgrade, UpgradeEvent::Sent) => (
            UpgradeState::Upgraded,
            ActionView::Done,
        ),
        _ => (UpgradeState::Failed, ActionView::Abort(Error::InvalidPacket)),
    }
}

/// The state that a run of events leads to.
pub open spec fn run(state: UpgradeState, events: Seq<UpgradeEvent>) -> UpgradeState
    decreases events.len(),
{
    if events.len() == 0 {
        state
    } else {
        run(next(state, events[0]).0, events.drop_first())
    }
}

/// Whether `payload` is byte for byte `expected`.
fn same_bytes(payload: &Vec<u8>, expected: &Vec<u8>) -> (r: bool)
    ensures
        r == (payload@ == expected@),
{
    if payload.len() != expected.len() {
        return false;
    }
    let mut i: usize = 0;
    while i < payload.len()
        invariant
            i <= payload@.len(),
            payload@.len() == expected@.len(),
            forall|j: int| 0 <= j < i ==> payload@[j] == expected@[j],
        decreases payload@.len() - i,
    {
        if payload[i] != expected[i] {
            return false;
        }
        i += 1;
    }
    assert(payload@ == expected@);
    true
}

fn probe_bytes() -> (r: Vec<u8>)
    ensures
        r@ == probe_payload(),
{
    let mut v: Vec<u8> = Vec::new();
    v.push(0x70);
    v.push(0x72);
    v.push(0x6f);
    v.push(0x62);
    v.push(0x65);
    assert(v@ == probe_payload());
    v
}

/// Advances the handshake by one event.
pub fn upgrade_step(state: UpgradeState, event: UpgradeEvent) -> (r: (UpgradeState, UpgradeAction))
    ensures
        (r.0, view_action(r.1)) == next(state, event),
{
    match (state, event) {
        (UpgradeState::Idle, UpgradeEvent::Begin) => {
            let probe = probe_bytes();
            let payload = encode_packet(PacketKind::Ping, probe.as_slice());
            (UpgradeState::SendingProbe, UpgradeAction::Send(Frame { opcode: Opcode::Text, payload }))
        },
        (UpgradeState::SendingProbe, UpgradeEvent::Sent) => (
            UpgradeState::AwaitingReply,
            UpgradeAction::Receive,
        ),
        (UpgradeState::AwaitingReply, UpgradeEvent::Received(f)) => {
            let probe = probe_bytes();
            let reply = encode_packet(PacketKind::Pong, probe.as_slice());
            if f.opcode == Opcode::Text && same_bytes(&f.payload, &reply) {
                let empty: Vec<u8> = Vec::new();
                let payload = encode_packet(PacketKind::Upgrade, empty.as_slice());
                assert(empty@ == Seq::<u8>::empty());
                (
                    UpgradeState::SendingUpgrade,
                    UpgradeAction::Send(Frame { opcode: Opcode::Text, payload }),
                )
            } else {
                (UpgradeState::Failed, UpgradeAction::Abort(Error::InvalidPacket))
            }
        },
        (UpgradeState::SendingUpgrade, UpgradeEvent::Sent) => (
            UpgradeState::Upgraded,
            UpgradeAction::Done,
        ),
        _ => (UpgradeState::Failed, UpgradeAction::Abort(Error::InvalidPacket)),
    }
}

/// Once failed, a handshake stays failed whatever comes after.
proof fn lemma_failed_stays(events: Seq<UpgradeEvent>)
    ensures
        run(UpgradeState::Failed, events) == UpgradeState::Failed,
    decreases events.len(),
{
    if events.len() > 0 {
        lemma_failed_stays(events.drop_first());
    }
}

/// The handshake succeeds exactly on the run begin, probe sent, a text frame
/// holding the encoded pong of the probe, upgrade sent; any other reply, or any
/// other order of events, fails it.
pub proof fn lemma_upgrade_iff_probe_reply(events: Seq<UpgradeEvent>)
    ensures
        (run(UpgradeState::Idle, events) == UpgradeState::Upgraded) <==> (events.len() == 4
            && events[0] == UpgradeEvent::Begin && events[1] == UpgradeEvent::Sent
            && events[2] is Received && is_probe_reply(events[2]->Received_0)
            && events[3] == UpgradeEvent::Sent),
{
    reveal_with_fuel(run, 5);
    let e = events;
    if e.len() > 0 {
        let s1 = next(UpgradeState::Idle, e[0]).0;
        let e1 = e.drop_first();
        if s1 == UpgradeState::Failed {
            lemma_failed_stays(e1);
        } else if e1.len() > 0 {
            let s2 = next(s1, e1[0]).0;
            let e2 = e1.drop_first();
            if s2 == UpgradeState::Failed {
                lemma_failed_stays(e2);
            } else if e2.len() > 0 {
                let s3 = next(s2, e2[0]).0;
                let e3 = e2.drop_first();
                if s3 == UpgradeState::Failed {
                    lemma_failed_stays(e3);
                } else if e3.len() > 0 {
                    let s4 = next(s3, e3[0]).0;
                    let e4 = e3.drop_first();
                    if s4 == UpgradeState::Failed {
                        lemma_failed_stays(e4);
                    } else if e4.len() > 0 {
                        let s5 = next(s4, e4[0]).0;
                        assert(s5 == UpgradeState::Failed);
                        lemma_failed_stays(e4.drop_first());
                    }
                }
            }
        }
    }
}

} // verus!
