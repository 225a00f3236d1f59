use pentair::errors::ProtocolError;
use pentair::message::{PacketType, ProtocolPacket};

/// A raw status packet: broadcast from the controller (source 0x10) to
/// destination 0x0f, command 0x02, with the status mask 0x3c at offset 7.
fn status_packet() -> Vec<u8> {
    vec![0x00, 0x0f, 0x10, 0x02, 0x03, 0x00, 0x00, 0x3c]
}

fn packet_with_command(cmd: u8) -> Vec<u8> {
    vec![0x00, 0x22, 0x33, cmd]
}

#[test]
fn decode_status_packet() {
    let packet = status_packet();
    let decoded = ProtocolPacket::decode_packet(&packet).expect("valid status packet");
    match decoded.decoded {
        PacketType::Status(state) => {
            // Mask 0x3c = 0b00111100 under the documented bit layout.
            assert!(state.pool_on);
            assert!(!state.spa_on);
            assert_eq!(state.aux_circuits, vec![false, true, true]);
            assert_eq!(state.feature_circuits, vec![true, false, false]);
        }
        other => panic!("expected a status message, got {:?}", other),
    }
}

#[test]
fn decode_status_command_with_wrong_addresses_is_unknown() {
    // Command 0x02 but not the controller-to-broadcast address pair.
    let packet = vec![0x00, 0x01, 0x02, 0x02, 0x00, 0x00, 0x00, 0x3c];
    let decoded = ProtocolPacket::decode_packet(&packet).expect("decodes");
    assert_eq!(decoded.decoded, PacketType::Unknown);
}

#[test]
fn decode_status_with_short_payload_is_rejected() {
    // A status packet needs at least 8 bytes to carry the mask.
    let packet = vec![0x00, 0x0f, 0x10, 0x02, 0x00, 0x00, 0x00];
    assert_eq!(ProtocolPacket::decode_packet(&packet), Err(ProtocolError::ShortPacket));
}

#[test]
fn decode_command_table() {
    let cases: Vec<(u8, PacketType)> = vec![
        (0x86, PacketType::CircuitStatusChange),
        (0x01, PacketType::CircuitStatusResponse),
        (0xe1, PacketType::RemoteLayoutRequest),
        (0x21, PacketType::RemoteLayoutResponse),
        (0x05, PacketType::ClockBroadcast),
        (0x07, PacketType::PumpStatus),
        (0x99, PacketType::Unknown),
        (0x00, PacketType::Unknown),
    ];
    for (cmd, expected) in cases {
        let decoded = ProtocolPacket::decode_packet(&packet_with_command(cmd)).expect("decodes");
        assert_eq!(decoded.decoded, expected, "command {:#04x}", cmd);
    }
}

#[test]
fn decode_rejects_short_packet() {
    assert_eq!(
        ProtocolPacket::decode_packet(&[0x00, 0x0f, 0x10]),
        Err(ProtocolError::ShortPacket)
    );
    assert_eq!(ProtocolPacket::decode_packet(&[]), Err(ProtocolError::ShortPacket));
}

#[test]
fn decode_rejects_invalid_protocol_version() {
    let packet = vec![0x05, 0x0f, 0x10, 0x02];
    assert_eq!(
        ProtocolPacket::decode_packet(&packet),
        Err(ProtocolError::InvalidProtocolVersion)
    );
    // Version 0x01 is accepted as well as 0x00.
    let packet = vec![0x01, 0x0f, 0x10, 0x07];
    assert!(ProtocolPacket::decode_packet(&packet).is_ok());
}

#[test]
fn decode_idempotent() {
    let packet = status_packet();
    let first = ProtocolPacket::decode_packet(&packet).expect("decodes");
    let second = ProtocolPacket::decode_packet(&packet).expect("decodes");
    assert_eq!(first, second);

    let noise = packet_with_command(0x99);
    let first = ProtocolPacket::decode_packet(&noise).expect("decodes");
    let second = ProtocolPacket::decode_packet(&noise).expect("decodes");
    assert_eq!(first, second);
}

#[test]
fn packet_getters_are_bounds_checked() {
    let packet = ProtocolPacket::new(&[0x01, 0x0f, 0x10, 0x86]);
    assert_eq!(packet.get_protocol_version(), 0x01);
    assert_eq!(packet.get_destination(), 0x0f);
    assert_eq!(packet.get_source(), 0x10);
    assert_eq!(packet.decoded, PacketType::Unknown);

    let short = ProtocolPacket::new(&[0x01, 0x0f]);
    assert_eq!(short.get_protocol_version(), 0x01);
    assert_eq!(short.get_destination(), 0x0f);
    assert_eq!(short.get_source(), 0);

    let empty = ProtocolPacket::new(&[]);
    assert_eq!(empty.get_protocol_version(), 0);
    assert_eq!(empty.get_destination(), 0);
    assert_eq!(empty.get_source(), 0);
}
