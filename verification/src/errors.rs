use vstd::prelude::*;

verus! {

/// A per-frame protocol failure.
///
/// Every variant is recoverable: the bus reader counts it and keeps
/// scanning for the next frame.
#[derive(Clone, Copy, Debug, PartialEq, Eq, Structural)]
pub enum ProtocolError {
    /// Fewer bytes than the minimum header region.
    ShortPacket,
    /// A frame was present but its checksum window does not match the
    /// trailing checksum, or its declared length is implausible.
    ChecksumMismatch,
    /// The protocol-version byte is outside the accepted set {0x00, 0x01}.
    InvalidProtocolVersion,
}

} // verus!
