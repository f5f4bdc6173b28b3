//! Client side of the framed-socket transport of an engine.io style protocol:
//! the address it connects to, the probe/upgrade handshake, and the mapping
//! between packets and the channel's text and binary frames.
//!
//! Everything here is free of I/O: the caller owns the channel, performs the
//! sends and receives that these functions ask for, and hands back what came in.

mod address;
mod error;
mod frame;
mod handshake;
mod packet;
mod transport;

pub use address::{
    appended_of, has_marker, has_scheme, is_socket_address, lemma_marker_exactly_once, lemma_rewrite_idempotent,
    marker, marker_count, marker_name, marker_value, marked_text, non_special_scheme, opt_view, plain_url,
    query_pairs_of, rewritten, scheme_set_of,
    rewrite_address, serialization_of, socket_scheme, special_name, special_scheme,
    url_parts_of, web_scheme_name, web_url, with_marker,
};
pub use error::Error;
pub use frame::{bytes_contents, emit_frame, emitted, poll_message, polled, Frame, Opcode};
pub use handshake::{
    is_probe_reply, lemma_upgrade_iff_probe_reply, next, probe_frame, probe_payload, run,
    upgrade_frame, upgrade_step, view_action,
    ActionView, UpgradeAction, UpgradeEvent, UpgradeState,
};
pub use packet::{encode_packet, encoded, kind_tag, PacketKind};
pub use transport::{lemma_address_marker_once, lemma_rewrite_stable, rewrites_to, WebsocketTransport};
