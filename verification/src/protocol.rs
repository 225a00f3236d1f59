use vstd::prelude::*;
use vstd::slice::slice_to_vec;

use crate::errors::ProtocolError;
use crate::message::{MessageView, PacketType, ProtocolPacket};
use crate::message::decode_view;
use crate::system_state::SystemState;

verus! {

/// How many recent packets the history keeps; the oldest entry is evicted
/// first once the cap is reached.
pub const HISTORY_CAP: usize = 10;

/// One remembered raw packet with its receipt timestamp (milliseconds).
#[derive(Clone, Debug, PartialEq, Eq)]
pub struct PacketLogElement {
    pub packet_content: Vec<u8>,
    pub timestamp: u64,
}

/// A control change requested by a caller but not yet transmitted on the
/// bus.
#[derive(Clone, Debug, PartialEq, Eq)]
pub struct OutgoingRequest {
    pub control_name: String,
    pub desired_on: bool,
}

/// The saturating diagnostic counters: the only user-visible trace of
/// decode failures besides the packet history.
#[derive(Clone, Copy, Debug, PartialEq, Eq, Structural)]
pub struct DiagnosticCounters {
    pub unrecognized_bytes: u32,
    pub corrupted_packets: u32,
    pub short_packets: u32,
    pub unknown_protocol: u32,
}

/// `x + 1`, saturating at the counter's maximum instead of overflowing.
pub open spec fn sat_inc(x: u32) -> u32 {
    if x == u32::MAX {
        u32::MAX
    } else {
        (x + 1) as u32
    }
}

/// The history as a mathematical sequence of (packet bytes, timestamp)
/// pairs.
pub open spec fn history_view(h: Seq<PacketLogElement>) -> Seq<(Seq<u8>, u64)> {
    h.map_values(|e: PacketLogElement| (e.packet_content@, e.timestamp))
}

/// Appending to the bounded history: a new entry goes to the back, and
/// when the cap is already reached the oldest entry leaves first.
pub open spec fn evict_push(h: Seq<(Seq<u8>, u64)>, e: (Seq<u8>, u64)) -> Seq<(Seq<u8>, u64)> {
    if h.len() < HISTORY_CAP {
        h.push(e)
    } else {
        h.push(e).skip(1)
    }
}

/// The counters after one per-frame failure was recorded: exactly the
/// matching counter is bumped, saturating.
pub open spec fn counters_after_error(c: DiagnosticCounters, e: ProtocolError) -> DiagnosticCounters {
    match e {
        ProtocolError::ShortPacket => (DiagnosticCounters {
            short_packets: sat_inc(c.short_packets),
            ..c
        }),
        ProtocolError::ChecksumMismatch => (DiagnosticCounters {
            corrupted_packets: sat_inc(c.corrupted_packets),
            ..c
        }),
        ProtocolError::InvalidProtocolVersion => (DiagnosticCounters {
            unknown_protocol: sat_inc(c.unknown_protocol),
            ..c
        }),
    }
}

/// The single in-memory model of the controlled system: the current
/// decoded state, diagnostic counters, a bounded history of recent raw
/// packets, and the not-yet-transmitted control requests.
pub struct PoolProtocol {
    /// The state decoded from the most recent accepted status packet,
    /// replaced wholesale and never patched.
    pub system_state: SystemState,

    /// Bumped each time a status packet replaces the state.
    pub version: u32,

    /// Set when a circuit change was requested and its confirmation from
    /// the bus is still outstanding.
    pub waiting_for_circuit_status_response: bool,

    /// The most recent raw packets, oldest first, at most `HISTORY_CAP`.
    pub recent_packets: Vec<PacketLogElement>,

    /// Saturating counters of per-frame failures.
    pub counters: DiagnosticCounters,

    /// Control requests accepted but not yet transmitted on the bus.
    pub outgoing: Vec<OutgoingRequest>,
}

/// How one decoded message transforms the protocol state, leaving the
/// packet history aside: a status broadcast replaces the system state
/// wholesale and bumps the version; a circuit-status response clears the
/// pending-confirmation flag; an unknown message bumps its counter; every
/// other message leaves the state untouched.
pub open spec fn apply_transition(pre: PoolProtocol, post: PoolProtocol, m: MessageView) -> bool {
    &&& post.outgoing == pre.outgoing
    &&& match m {
        MessageView::Status(sv) => {
            &&& post.system_state@ == sv
            &&& post.version == sat_inc(pre.version)
            &&& post.waiting_for_circuit_status_response
                == pre.waiting_for_circuit_status_response
            &&& post.counters == pre.counters
        },
        MessageView::CircuitStatusResponse => {
            &&& post.system_state == pre.system_state
            &&& post.version == pre.version
            &&& post.waiting_for_circuit_status_response == false
            &&& post.counters == pre.counters
        },
        MessageView::Unknown => {
            &&& post.system_state == pre.system_state
            &&& post.version == pre.version
            &&& post.waiting_for_circuit_status_response
                == pre.waiting_for_circuit_status_response
            &&& post.counters == (DiagnosticCounters {
                unrecognized_bytes: sat_inc(pre.counters.unrecognized_bytes),
                ..pre.counters
            })
        },
        _ => {
            &&& post.system_state == pre.system_state
            &&& post.version == pre.version
            &&& post.waiting_for_circuit_status_response
                == pre.waiting_for_circuit_status_response
            &&& post.counters == pre.counters
        },
    }
}

/// How one rejected frame transforms the protocol state: exactly the
/// matching counter is bumped and everything else is untouched.
pub open spec fn error_transition(pre: PoolProtocol, post: PoolProtocol, e: ProtocolError) -> bool {
    &&& post.system_state == pre.system_state
    &&& post.version == pre.version
    &&& post.waiting_for_circuit_status_response == pre.waiting_for_circuit_status_response
    &&& post.outgoing == pre.outgoing
    &&& post.counters == counters_after_error(pre.counters, e)
}

impl PoolProtocol {
    /// The history never exceeds its cap.
    pub open spec fn wf(self) -> bool {
        self.recent_packets@.len() <= HISTORY_CAP
    }

    /// A fresh protocol state: all-off system state, zero counters, empty
    /// history, nothing pending.
    pub fn new() -> (r: PoolProtocol)
        ensures
            r.wf(),
            r.system_state@ == crate::system_state::initial_state(),
            r.version == 0,
            r.waiting_for_circuit_status_response == false,
            r.recent_packets@.len() == 0,
            r.counters == (DiagnosticCounters {
                unrecognized_bytes: 0u32,
                corrupted_packets: 0u32,
                short_packets: 0u32,
                unknown_protocol: 0u32,
            }),
            r.outgoing@.len() == 0,
    {
        PoolProtocol {
            system_state: SystemState::new(),
            version: 0,
            waiting_for_circuit_status_response: false,
            recent_packets: Vec::new(),
            counters: DiagnosticCounters {
                unrecognized_bytes: 0,
                corrupted_packets: 0,
                short_packets: 0,
                unknown_protocol: 0,
            },
            outgoing: Vec::new(),
        }
    }

    /// A copy of the current system state.
    pub fn get_state(&self) -> (r: SystemState)
        ensures
            r@ == self.system_state@,
    {
        self.system_state.duplicate()
    }

    /// A copy of the current system state together with the diagnostic
    /// counters, taken from one consistent protocol state.
    pub fn snapshot(&self) -> (r: (SystemState, DiagnosticCounters))
        ensures
            r.0@ == self.system_state@,
            r.1 == self.counters,
    {
        (self.system_state.duplicate(), self.counters)
    }

    /// A copy of the recent-packet history, oldest first.
    pub fn get_recent_packets(&self) -> (r: Vec<PacketLogElement>)
        ensures
            history_view(r@) == history_view(self.recent_packets@),
    {
        let mut r: Vec<PacketLogElement> = Vec::new();
        let mut i: usize = 0;
        while i < self.recent_packets.len()
            invariant
                i <= self.recent_packets@.len(),
                r@.len() == i,
                forall|j: int|
                    0 <= j < i ==> (#[trigger] r@[j]).packet_content@
                        == self.recent_packets@[j].packet_content@ && r@[j].timestamp
                        == self.recent_packets@[j].timestamp,
            decreases self.recent_packets@.len() - i,
        {
            let element = PacketLogElement {
                packet_content: clone_byte_vec(&self.recent_packets[i].packet_content),
                timestamp: self.recent_packets[i].timestamp,
            };
            r.push(element);
            i = i + 1;
        }
        proof {
            assert(history_view(r@) =~~= history_view(self.recent_packets@));
        }
        r
    }

    /// Appends one raw packet to the bounded history, evicting the oldest
    /// entry first once the cap is reached.
    pub fn log_packet(&mut self, pckt: &[u8], timestamp: u64)
        requires
            old(self).wf(),
        ensures
            final(self).wf(),
            history_view(final(self).recent_packets@) == evict_push(
                history_view(old(self).recent_packets@),
                (pckt@, timestamp),
            ),
            final(self).system_state == old(self).system_state,
            final(self).version == old(self).version,
            final(self).waiting_for_circuit_status_response == old(
                self,
            ).waiting_for_circuit_status_response,
            final(self).counters == old(self).counters,
            final(self).outgoing == old(self).outgoing,
    {
        let element = PacketLogElement { packet_content: slice_to_vec(pckt), timestamp };
        self.recent_packets.push(element);
        if self.recent_packets.len() > HISTORY_CAP {
            self.recent_packets.remove(0);
            proof {
                assert(history_view(self.recent_packets@) =~~= evict_push(
                    history_view(old(self).recent_packets@),
                    (pckt@, timestamp),
                ));
            }
        } else {
            proof {
                assert(history_view(self.recent_packets@) =~~= evict_push(
                    history_view(old(self).recent_packets@),
                    (pckt@, timestamp),
                ));
            }
        }
    }

    /// Applies one decoded message to the protocol state. Must be called
    /// with exclusive access; the packet history is not touched.
    pub fn apply_decoded(&mut self, message: PacketType)
        ensures
            apply_transition(*old(self), *final(self), message@),
            final(self).recent_packets == old(self).recent_packets,
    {
        match message {
            PacketType::Status(st) => {
                self.system_state = st;
                self.version = self.version.saturating_add(1);
            },
            PacketType::CircuitStatusResponse => {
                self.waiting_for_circuit_status_response = false;
            },
            PacketType::Unknown => {
                self.counters.unrecognized_bytes = self.counters.unrecognized_bytes.saturating_add(
                    1,
                );
            },
            _ => {},
        }
    }

    /// Counts one corrupted frame (checksum mismatch or implausible
    /// declared length), saturating.
    pub fn note_corrupted(&mut self)
        ensures
            error_transition(*old(self), *final(self), ProtocolError::ChecksumMismatch),
            final(self).recent_packets == old(self).recent_packets,
    {
        self.counters.corrupted_packets = self.counters.corrupted_packets.saturating_add(1);
    }

    /// Counts one frame shorter than the minimum header region,
    /// saturating.
    pub fn note_short(&mut self)
        ensures
            error_transition(*old(self), *final(self), ProtocolError::ShortPacket),
            final(self).recent_packets == old(self).recent_packets,
    {
        self.counters.short_packets = self.counters.short_packets.saturating_add(1);
    }

    /// Counts one frame whose protocol-version byte is outside the
    /// accepted set, saturating.
    pub fn note_unknown_protocol(&mut self)
        ensures
            error_transition(*old(self), *final(self), ProtocolError::InvalidProtocolVersion),
            final(self).recent_packets == old(self).recent_packets,
    {
        self.counters.unknown_protocol = self.counters.unknown_protocol.saturating_add(1);
    }

    /// Records one rejected frame on the matching counter.
    pub fn record_error(&mut self, e: ProtocolError)
        ensures
            error_transition(*old(self), *final(self), e),
            final(self).recent_packets == old(self).recent_packets,
    {
        match e {
            ProtocolError::ShortPacket => self.note_short(),
            ProtocolError::ChecksumMismatch => self.note_corrupted(),
            ProtocolError::InvalidProtocolVersion => self.note_unknown_protocol(),
        }
    }

    /// Decodes one raw packet and folds the outcome into the protocol
    /// state: an accepted packet is recorded in the history and applied;
    /// a rejected one bumps exactly the matching counter and leaves the
    /// state and the history untouched.
    pub fn process_packet(&mut self, packet: &[u8], timestamp: u64)
        requires
            old(self).wf(),
        ensures
            final(self).wf(),
            match decode_view(packet@) {
                Ok(m) => {
                    &&& history_view(final(self).recent_packets@) == evict_push(
                        history_view(old(self).recent_packets@),
                        (packet@, timestamp),
                    )
                    &&& apply_transition(*old(self), *final(self), m)
                },
                Err(e) => {
                    &&& final(self).recent_packets == old(self).recent_packets
                    &&& error_transition(*old(self), *final(self), e)
                },
            },
    {
        match ProtocolPacket::decode_packet(packet) {
            Ok(received) => {
                self.log_packet(packet, timestamp);
                self.apply_decoded(received.decoded);
            },
            Err(e) => {
                self.record_error(e);
            },
        }
    }

    /// Accepts a circuit-change request for a recognized control name:
    /// the request is queued for transmission and the state moves to
    /// awaiting the bus confirmation. The system state itself is not
    /// touched: only a later accepted status packet updates it, since the
    /// physical device is the sole source of truth. Returns whether the
    /// request was accepted; an unrecognized name is rejected and leaves
    /// the state untouched.
    pub fn change_circuit(&mut self, control_name: &str, state: bool) -> (accepted: bool)
        ensures
            accepted == (control_name@ == "pool"@ || control_name@ == "spa"@),
            accepted ==> {
                &&& final(self).waiting_for_circuit_status_response == true
                &&& final(self).outgoing@.len() == old(self).outgoing@.len() + 1
                &&& (forall|i: int|
                    0 <= i < old(self).outgoing@.len() ==> final(self).outgoing@[i] == old(
                        self,
                    ).outgoing@[i])
                &&& final(self).outgoing@.last().control_name@ == control_name@
                &&& final(self).outgoing@.last().desired_on == state
                &&& final(self).system_state == old(self).system_state
                &&& final(self).version == old(self).version
                &&& final(self).counters == old(self).counters
                &&& final(self).recent_packets == old(self).recent_packets
            },
            !accepted ==> *final(self) == *old(self),
    {
        let name: String = control_name.to_owned();
        let pool: String = "pool".to_owned();
        let spa: String = "spa".to_owned();
        let accepted = name == pool || name == spa;
        if accepted {
            self.outgoing.push(OutgoingRequest { control_name: name, desired_on: state });
            self.waiting_for_circuit_status_response = true;
        }
        accepted
    }
}

/// An elementwise copy of a byte vector.
pub fn clone_byte_vec(v: &Vec<u8>) -> (r: Vec<u8>)
    ensures
        r@ == v@,
{
    let mut r: Vec<u8> = Vec::new();
    let mut i: usize = 0;
    while i < v.len()
        invariant
            i <= v.len(),
            r@ == v@.subrange(0, i as int),
        decreases v.len() - i,
    {
        r.push(v[i]);
        proof {
            assert(r@ =~= v@.subrange(0, i as int + 1));
        }
        i = i + 1;
    }
    proof {
        assert(r@ =~= v@);
    }
    r
}

/// A snapshot taken after a message was applied never mixes two sources:
/// after a status broadcast it is exactly the state decoded from that one
/// packet, and after any other message it is exactly the state from
/// before the call.
pub proof fn lemma_snapshot_atomicity(pre: PoolProtocol, post: PoolProtocol, m: MessageView)
    requires
        apply_transition(pre, post, m),
    ensures
        m matches MessageView::Status(sv) ==> post.system_state@ == sv,
        !(m is Status) ==> post.system_state@ == pre.system_state@,
{
}

} // verus!
