use pentair::errors::ProtocolError;
use pentair::framing::assemble_frame;
use pentair::message::{PacketType, ProtocolPacket};
use pentair::protocol::PoolProtocol;

/// A raw status packet with mask byte 0x3c at offset 7.
fn status_packet() -> Vec<u8> {
    vec![0x00, 0x0f, 0x10, 0x02, 0x03, 0x00, 0x00, 0x3c]
}

/// A circuit-status-response packet (command 0x01).
fn circuit_status_response() -> Vec<u8> {
    vec![0x00, 0x22, 0x10, 0x01]
}

#[test]
fn apply_then_snapshot_is_atomic() {
    let mut pool = PoolProtocol::new();
    let decoded = ProtocolPacket::decode_packet(&status_packet()).expect("decodes");
    pool.apply_decoded(decoded.decoded);

    // The snapshot is exactly the state of the one applied packet.
    let (state, _) = pool.snapshot();
    assert!(state.pool_on);
    assert!(!state.spa_on);
    assert_eq!(state.aux_circuits, vec![false, true, true]);
    assert_eq!(state.feature_circuits, vec![true, false, false]);
    assert_eq!(pool.version, 1);

    // A non-status message leaves the snapshot exactly as it was.
    let before = pool.snapshot().0;
    pool.apply_decoded(PacketType::ClockBroadcast);
    assert_eq!(pool.snapshot().0, before);
}

#[test]
fn history_eviction_after_eleven_records() {
    let mut pool = PoolProtocol::new();
    for k in 0..11u8 {
        let packet = vec![0x00, 0x0f, 0x10, 0x07, k];
        pool.log_packet(&packet, 1000 + k as u64);
    }
    let history = pool.get_recent_packets();
    assert_eq!(history.len(), 10);
    // The first recorded entry was evicted: the oldest remaining entry is
    // the second one recorded.
    assert_eq!(history[0].packet_content, vec![0x00, 0x0f, 0x10, 0x07, 1]);
    assert_eq!(history[0].timestamp, 1001);
    assert_eq!(history[9].packet_content, vec![0x00, 0x0f, 0x10, 0x07, 10]);
    assert_eq!(history[9].timestamp, 1010);
}

#[test]
fn end_to_end_status_frame() {
    // Assembler -> decoder -> state: a framed status packet with mask
    // 0x3c (0b00111100) switches on exactly the circuits of those bits.
    let frame = vec![0x00, 0x0f, 0x10, 0x02, 0x03, 0x00, 0x00, 0x3c, 0x01, 0x05];
    let packet = assemble_frame(&frame).expect("checksum is valid");
    assert_eq!(packet, status_packet());

    let mut pool = PoolProtocol::new();
    pool.process_packet(&packet, 42);
    let (state, counters) = pool.snapshot();
    assert!(state.pool_on);
    assert!(!state.spa_on);
    assert_eq!(state.aux_circuits, vec![false, true, true]);
    assert_eq!(state.feature_circuits, vec![true, false, false]);
    assert_eq!(counters.unrecognized_bytes, 0);
    assert_eq!(counters.corrupted_packets, 0);
    assert_eq!(counters.short_packets, 0);
    assert_eq!(counters.unknown_protocol, 0);
    let history = pool.get_recent_packets();
    assert_eq!(history.len(), 1);
    assert_eq!(history[0].packet_content, packet);
    assert_eq!(history[0].timestamp, 42);
}

#[test]
fn circuit_change_lifecycle() {
    let mut pool = PoolProtocol::new();
    assert!(!pool.waiting_for_circuit_status_response);

    // The request is accepted and the state awaits the bus confirmation.
    let accepted = pool.change_circuit("pool", true);
    assert!(accepted);
    assert!(pool.waiting_for_circuit_status_response);
    assert_eq!(pool.outgoing.len(), 1);
    assert_eq!(pool.outgoing[0].control_name, "pool");
    assert!(pool.outgoing[0].desired_on);

    // The snapshot still reflects the pre-change state: only the device
    // confirmation through a status packet updates it.
    let (state, _) = pool.snapshot();
    assert!(!state.pool_on);

    // The confirmation clears the pending flag.
    let decoded = ProtocolPacket::decode_packet(&circuit_status_response()).expect("decodes");
    pool.apply_decoded(decoded.decoded);
    assert!(!pool.waiting_for_circuit_status_response);
}

#[test]
fn circuit_change_rejects_unknown_control() {
    let mut pool = PoolProtocol::new();
    let accepted = pool.change_circuit("pump", true);
    assert!(!accepted);
    assert!(!pool.waiting_for_circuit_status_response);
    assert_eq!(pool.outgoing.len(), 0);

    assert!(pool.change_circuit("spa", false));
    assert_eq!(pool.outgoing.len(), 1);
    assert_eq!(pool.outgoing[0].control_name, "spa");
    assert!(!pool.outgoing[0].desired_on);
}

#[test]
fn short_frame_counts_once_and_leaves_state() {
    let mut pool = PoolProtocol::new();
    let before = pool.snapshot().0;
    pool.process_packet(&[0x00, 0x0f, 0x10], 7);
    let (state, counters) = pool.snapshot();
    assert_eq!(counters.short_packets, 1);
    assert_eq!(counters.corrupted_packets, 0);
    assert_eq!(counters.unrecognized_bytes, 0);
    assert_eq!(counters.unknown_protocol, 0);
    assert_eq!(state, before);
    assert_eq!(pool.get_recent_packets().len(), 0);
}

#[test]
fn invalid_version_counts_unknown_protocol() {
    let mut pool = PoolProtocol::new();
    pool.process_packet(&[0x05, 0x0f, 0x10, 0x02], 7);
    assert_eq!(pool.counters.unknown_protocol, 1);
    assert_eq!(pool.counters.short_packets, 0);
}

#[test]
fn unknown_command_counts_unrecognized() {
    let mut pool = PoolProtocol::new();
    pool.process_packet(&[0x00, 0x22, 0x33, 0x99], 7);
    assert_eq!(pool.counters.unrecognized_bytes, 1);
    // The packet itself was valid and is recorded in the history.
    assert_eq!(pool.get_recent_packets().len(), 1);
}

#[test]
fn corrupted_frame_counts_corrupted() {
    let mut pool = PoolProtocol::new();
    let mut frame = vec![0x00, 0x0f, 0x10, 0x02, 0x03, 0x00, 0x00, 0x3c, 0x01, 0x05];
    frame[7] ^= 0x40;
    match assemble_frame(&frame) {
        Ok(_) => panic!("corrupted frame must not assemble"),
        Err(e) => {
            assert_eq!(e, ProtocolError::ChecksumMismatch);
            pool.record_error(e);
        }
    }
    assert_eq!(pool.counters.corrupted_packets, 1);
}

#[test]
fn get_state_returns_copy() {
    let mut pool = PoolProtocol::new();
    let decoded = ProtocolPacket::decode_packet(&status_packet()).expect("decodes");
    pool.apply_decoded(decoded.decoded);
    let copy = pool.get_state();
    assert_eq!(copy, pool.system_state);
}
