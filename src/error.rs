use vstd::prelude::*;

verus! {

/// Why an operation of the transport failed.
#[derive(Clone, Copy, Debug, PartialEq, Eq, Structural)]
pub enum Error {
    /// The address text is not an absolute URL.
    InvalidUrl,
    /// The address's scheme cannot be switched to the socket scheme.
    UnsupportedScheme,
    /// A payload that must be text is not valid UTF-8.
    InvalidUtf8,
    /// The peer answered the probe with something other than the probe reply,
    /// or a handshake event came out of order.
    InvalidPacket,
}

} // verus!
