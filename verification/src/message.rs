use vstd::prelude::*;
use vstd::slice::slice_to_vec;

use crate::errors::ProtocolError;
use crate::system_state::{mask_state, StateView, SystemState};

verus! {

// Protocol offsets into a raw packet, which starts right after the
// preamble and carries no header of its own.
pub const PROTOCOL_OFFSET: usize = 0;
pub const DEST_OFFSET: usize = 1;
pub const SRC_OFFSET: usize = 2;
pub const CMD_OFFSET: usize = 3;

/// The command byte that carries a system-status broadcast.
pub const SYSTEM_STATUS_CMD: u8 = 0x02;

/// Source and destination a status broadcast must carry to be accepted.
pub const STATUS_SRC: u8 = 0x10;
pub const STATUS_DEST: u8 = 0x0f;

/// The message classes a raw packet decodes into.
#[derive(Clone, Debug, PartialEq, Eq)]
pub enum PacketType {
    Status(SystemState),
    CircuitStatusChange,
    CircuitStatusResponse,
    RemoteLayoutRequest,
    RemoteLayoutResponse,
    ClockBroadcast,
    PumpStatus,
    Unknown,
}

/// Mathematical model of a [`PacketType`]: the status payload is the
/// state view it carries.
#[verifier::ext_equal]
pub enum MessageView {
    Status(StateView),
    CircuitStatusChange,
    CircuitStatusResponse,
    RemoteLayoutRequest,
    RemoteLayoutResponse,
    ClockBroadcast,
    PumpStatus,
    Unknown,
}

impl View for PacketType {
    type V = MessageView;

    open spec fn view(&self) -> MessageView {
        match self {
            PacketType::Status(st) => MessageView::Status(st@),
            PacketType::CircuitStatusChange => MessageView::CircuitStatusChange,
            PacketType::CircuitStatusResponse => MessageView::CircuitStatusResponse,
            PacketType::RemoteLayoutRequest => MessageView::RemoteLayoutRequest,
            PacketType::RemoteLayoutResponse => MessageView::RemoteLayoutResponse,
            PacketType::ClockBroadcast => MessageView::ClockBroadcast,
            PacketType::PumpStatus => MessageView::PumpStatus,
            PacketType::Unknown => MessageView::Unknown,
        }
    }
}

/// The message class of a command byte that is not an accepted status
/// broadcast. Never a `Status`: that class additionally requires the
/// status source and destination.
pub open spec fn other_command_kind(cmd: u8) -> MessageView {
    if cmd == 0x86u8 {
        MessageView::CircuitStatusChange
    } else if cmd == 0x01u8 {
        MessageView::CircuitStatusResponse
    } else if cmd == 0xe1u8 {
        MessageView::RemoteLayoutRequest
    } else if cmd == 0x21u8 {
        MessageView::RemoteLayoutResponse
    } else if cmd == 0x05u8 {
        MessageView::ClockBroadcast
    } else if cmd == 0x07u8 {
        MessageView::PumpStatus
    } else {
        MessageView::Unknown
    }
}

/// True when the packet carries a status broadcast: status command byte
/// from the controller's source address to the broadcast destination.
pub open spec fn is_status_packet(s: Seq<u8>) -> bool {
    &&& s[CMD_OFFSET as int] == SYSTEM_STATUS_CMD
    &&& s[SRC_OFFSET as int] == STATUS_SRC
    &&& s[DEST_OFFSET as int] == STATUS_DEST
}

/// The full decode function, as a mathematical map from raw packet bytes
/// to a typed message or a rejection.
pub open spec fn decode_view(s: Seq<u8>) -> Result<MessageView, ProtocolError> {
    if s.len() < 4 {
        Err(ProtocolError::ShortPacket)
    } else if s[PROTOCOL_OFFSET as int] != 0x00u8 && s[PROTOCOL_OFFSET as int] != 0x01u8 {
        Err(ProtocolError::InvalidProtocolVersion)
    } else if is_status_packet(s) {
        if s.len() < 8 {
            Err(ProtocolError::ShortPacket)
        } else {
            Ok(MessageView::Status(mask_state(s[crate::system_state::MASK_IDX as int])))
        }
    } else {
        Ok(other_command_kind(s[CMD_OFFSET as int]))
    }
}

/// A raw packet together with its decoded message class.
#[derive(Clone, Debug, PartialEq, Eq)]
pub struct ProtocolPacket {
    pub packet_content: Vec<u8>,
    pub decoded: PacketType,
}

impl ProtocolPacket {
    /// Wraps raw packet bytes without decoding them yet.
    pub fn new(packet: &[u8]) -> (r: ProtocolPacket)
        ensures
            r.packet_content@ == packet@,
            r.decoded is Unknown,
    {
        ProtocolPacket { packet_content: slice_to_vec(packet), decoded: PacketType::Unknown }
    }

    /// The source-address byte, or 0 when the packet is too short to
    /// carry one.
    pub fn get_source(&self) -> (r: u8)
        ensures
            r == (if self.packet_content@.len() > SRC_OFFSET {
                self.packet_content@[SRC_OFFSET as int]
            } else {
                0u8
            }),
    {
        if self.packet_content.len() > SRC_OFFSET {
            self.packet_content[SRC_OFFSET]
        } else {
            0
        }
    }

    /// The destination-address byte, or 0 when the packet is too short to
    /// carry one.
    pub fn get_destination(&self) -> (r: u8)
        ensures
            r == (if self.packet_content@.len() > DEST_OFFSET {
                self.packet_content@[DEST_OFFSET as int]
            } else {
                0u8
            }),
    {
        if self.packet_content.len() > DEST_OFFSET {
            self.packet_content[DEST_OFFSET]
        } else {
            0
        }
    }

    /// The protocol-version byte, or 0 when the packet is empty.
    pub fn get_protocol_version(&self) -> (r: u8)
        ensures
            r == (if self.packet_content@.len() > PROTOCOL_OFFSET {
                self.packet_content@[PROTOCOL_OFFSET as int]
            } else {
                0u8
            }),
    {
        if self.packet_content.len() > PROTOCOL_OFFSET {
            self.packet_content[PROTOCOL_OFFSET]
        } else {
            0
        }
    }

    /// Classifies a raw packet by its header fields and command byte.
    /// Bounds are checked before every offset access: malformed input is
    /// rejected with an error, never a fault.
    pub fn decode_packet(packet: &[u8]) -> (r: Result<ProtocolPacket, ProtocolError>)
        ensures
            match r {
                Ok(p) => {
                    &&& decode_view(packet@) matches Ok(m) && p.decoded@ == m
                    &&& p.packet_content@ == packet@
                },
                Err(e) => decode_view(packet@) == Err::<MessageView, ProtocolError>(e),
            },
    {
        if packet.len() < 4 {
            return Err(ProtocolError::ShortPacket);
        }
        if packet[PROTOCOL_OFFSET] != 0x00 && packet[PROTOCOL_OFFSET] != 0x01 {
            return Err(ProtocolError::InvalidProtocolVersion);
        }
        let decoded: PacketType = if packet[CMD_OFFSET] == SYSTEM_STATUS_CMD
            && packet[SRC_OFFSET] == STATUS_SRC && packet[DEST_OFFSET] == STATUS_DEST {
            match SystemState::from_packet(packet) {
                Ok(st) => PacketType::Status(st),
                Err(e) => {
                    return Err(e);
                },
            }
        } else if packet[CMD_OFFSET] == 0x86 {
            PacketType::CircuitStatusChange
        } else if packet[CMD_OFFSET] == 0x01 {
            PacketType::CircuitStatusResponse
        } else if packet[CMD_OFFSET] == 0xe1 {
            PacketType::RemoteLayoutRequest
        } else if packet[CMD_OFFSET] == 0x21 {
            PacketType::RemoteLayoutResponse
        } else if packet[CMD_OFFSET] == 0x05 {
            PacketType::ClockBroadcast
        } else if packet[CMD_OFFSET] == 0x07 {
            PacketType::PumpStatus
        } else {
            PacketType::Unknown
        };
        Ok(ProtocolPacket { packet_content: slice_to_vec(packet), decoded })
    }
}

/// Decoding is a pure function of the raw packet bytes: two decodes of
/// the same packet yield structurally equal messages.
pub proof fn lemma_decode_idempotent(
    packet: Seq<u8>,
    d1: Result<MessageView, ProtocolError>,
    d2: Result<MessageView, ProtocolError>,
)
    requires
        d1 == decode_view(packet),
        d2 == decode_view(packet),
    ensures
        d1 == d2,
{
}

} // verus!
