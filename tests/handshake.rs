use engineio_websocket::{
    upgrade_step, Error, Frame, Opcode, UpgradeAction, UpgradeEvent, UpgradeState,
};

fn text(payload: &[u8]) -> Frame {
    Frame {
        opcode: Opcode::Text,
        payload: payload.to_vec(),
    }
}

fn until_reply() -> UpgradeState {
    let (state, action) = upgrade_step(UpgradeState::Idle, UpgradeEvent::Begin);
    assert_eq!(action, UpgradeAction::Send(text(b"2probe")));
    let (state, action) = upgrade_step(state, UpgradeEvent::Sent);
    assert_eq!(action, UpgradeAction::Receive);
    state
}

#[test]
fn handshake_upgrades_on_probe_reply() {
    let state = until_reply();
    let (state, action) = upgrade_step(state, UpgradeEvent::Received(text(b"3probe")));
    assert_eq!(action, UpgradeAction::Send(text(b"5")));
    let (state, action) = upgrade_step(state, UpgradeEvent::Sent);
    assert_eq!(state, UpgradeState::Upgraded);
    assert_eq!(action, UpgradeAction::Done);
}

#[test]
fn handshake_fails_on_wrong_kind() {
    let state = until_reply();
    let (state, action) = upgrade_step(state, UpgradeEvent::Received(text(b"2probe")));
    assert_eq!(state, UpgradeState::Failed);
    assert_eq!(action, UpgradeAction::Abort(Error::InvalidPacket));
}

#[test]
fn handshake_fails_on_wrong_text() {
    let state = until_reply();
    let (state, action) = upgrade_step(state, UpgradeEvent::Received(text(b"3probes")));
    assert_eq!(state, UpgradeState::Failed);
    assert_eq!(action, UpgradeAction::Abort(Error::InvalidPacket));
}

#[test]
fn handshake_fails_on_binary_reply() {
    let state = until_reply();
    let reply = Frame {
        opcode: Opcode::Binary,
        payload: b"3probe".to_vec(),
    };
    let (state, action) = upgrade_step(state, UpgradeEvent::Received(reply));
    assert_eq!(state, UpgradeState::Failed);
    assert_eq!(action, UpgradeAction::Abort(Error::InvalidPacket));
}

#[test]
fn handshake_fails_on_events_out_of_order() {
    let (state, action) = upgrade_step(UpgradeState::Idle, UpgradeEvent::Sent);
    assert_eq!(state, UpgradeState::Failed);
    assert_eq!(action, UpgradeAction::Abort(Error::InvalidPacket));
    let (state, _) = upgrade_step(state, UpgradeEvent::Begin);
    assert_eq!(state, UpgradeState::Failed);
    let (state, _) = upgrade_step(UpgradeState::Upgraded, UpgradeEvent::Sent);
    assert_eq!(state, UpgradeState::Failed);
}
