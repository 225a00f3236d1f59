use vstd::prelude::*;

use crate::errors::ProtocolError;

verus! {

/// Byte offset of the status-mask byte, counted from the start of the
/// raw-packet buffer (the byte right after the preamble).
pub const MASK_IDX: usize = 7;

/// Mathematical model of a [`SystemState`]: the circuit flags as plain
/// booleans and sequences, plus the temperature channels.
#[verifier::ext_equal]
pub struct StateView {
    pub pool_on: bool,
    pub spa_on: bool,
    pub aux_circuits: Seq<bool>,
    pub feature_circuits: Seq<bool>,
    pub water_temp: u32,
    pub air_temp: u32,
    pub solar_temp: u32,
}

/// The state decoded from a single status-mask byte: one bit per circuit.
/// The temperature channels are not carried by the mask and stay zero.
pub open spec fn mask_state(m: u8) -> StateView {
    StateView {
        pool_on: m & 0x20 != 0,
        spa_on: m & 0x01 != 0,
        aux_circuits: seq![m & 0x02 != 0, m & 0x04 != 0, m & 0x08 != 0],
        feature_circuits: seq![m & 0x10 != 0, m & 0x40 != 0, m & 0x80 != 0],
        water_temp: 0u32,
        air_temp: 0u32,
        solar_temp: 0u32,
    }
}

/// The state before any status packet was accepted: every circuit off,
/// no circuits decoded yet, all temperatures zero.
pub open spec fn initial_state() -> StateView {
    StateView {
        pool_on: false,
        spa_on: false,
        aux_circuits: Seq::empty(),
        feature_circuits: Seq::empty(),
        water_temp: 0u32,
        air_temp: 0u32,
        solar_temp: 0u32,
    }
}

/// The decoded contents of one accepted system-status packet.
///
/// A value is rebuilt wholesale from each accepted status packet and never
/// patched incrementally.
#[derive(Clone, Debug, PartialEq, Eq)]
pub struct SystemState {
    // Different switches, usually in the state on/off.
    pub pool_on: bool,
    pub spa_on: bool,
    pub aux_circuits: Vec<bool>,
    pub feature_circuits: Vec<bool>,

    // Block of temperatures.
    pub water_temp: u32,
    pub air_temp: u32,
    pub solar_temp: u32,
}

impl View for SystemState {
    type V = StateView;

    open spec fn view(&self) -> StateView {
        StateView {
            pool_on: self.pool_on,
            spa_on: self.spa_on,
            aux_circuits: self.aux_circuits@,
            feature_circuits: self.feature_circuits@,
            water_temp: self.water_temp,
            air_temp: self.air_temp,
            solar_temp: self.solar_temp,
        }
    }
}

impl SystemState {
    /// An all-off state with no decoded circuits.
    pub fn new() -> (r: SystemState)
        ensures
            r@ == initial_state(),
    {
        let r = SystemState {
            pool_on: false,
            spa_on: false,
            aux_circuits: Vec::new(),
            feature_circuits: Vec::new(),
            water_temp: 0,
            air_temp: 0,
            solar_temp: 0,
        };
        proof {
            assert(r@ =~= initial_state());
        }
        r
    }

    /// Decodes the status-mask byte of a raw status packet into a fresh
    /// state, bit by bit. Packets too short to carry the mask byte are
    /// rejected, never indexed out of bounds.
    pub fn from_packet(packet: &[u8]) -> (r: Result<SystemState, ProtocolError>)
        ensures
            packet@.len() < 8 ==> r == Err::<SystemState, ProtocolError>(ProtocolError::ShortPacket),
            packet@.len() >= 8 ==> (r matches Ok(st) && st@ == mask_state(packet@[MASK_IDX as int])),
    {
        if packet.len() < 8 {
            return Err(ProtocolError::ShortPacket);
        }

        let mask = packet[MASK_IDX];
        let mut aux_circuits: Vec<bool> = Vec::new();
        aux_circuits.push(mask & 0x02 != 0);
        aux_circuits.push(mask & 0x04 != 0);
        aux_circuits.push(mask & 0x08 != 0);
        let mut feature_circuits: Vec<bool> = Vec::new();
        feature_circuits.push(mask & 0x10 != 0);
        feature_circuits.push(mask & 0x40 != 0);
        feature_circuits.push(mask & 0x80 != 0);

        let st = SystemState {
            pool_on: mask & 0x20 != 0,
            spa_on: mask & 0x01 != 0,
            aux_circuits,
            feature_circuits,
            water_temp: 0,
            air_temp: 0,
            solar_temp: 0,
        };
        proof {
            assert(st@ =~= mask_state(packet@[MASK_IDX as int]));
        }
        Ok(st)
    }

    /// An independent copy with the same contents.
    pub fn duplicate(&self) -> (r: SystemState)
        ensures
            r@ == self@,
    {
        let r = SystemState {
            pool_on: self.pool_on,
            spa_on: self.spa_on,
            aux_circuits: clone_bool_vec(&self.aux_circuits),
            feature_circuits: clone_bool_vec(&self.feature_circuits),
            water_temp: self.water_temp,
            air_temp: self.air_temp,
            solar_temp: self.solar_temp,
        };
        proof {
            assert(r@ =~= self@);
        }
        r
    }

    /// The named on/off controls and their current state.
    pub fn get_controls_state(&self) -> (r: Vec<(String, bool)>)
        ensures
            r@.len() == 2,
            r@[0].0@ == "pool"@ && r@[0].1 == self.pool_on,
            r@[1].0@ == "spa"@ && r@[1].1 == self.spa_on,
    {
        let mut r: Vec<(String, bool)> = Vec::new();
        r.push(("pool".to_owned(), self.pool_on));
        r.push(("spa".to_owned(), self.spa_on));
        r
    }

    /// The named temperature channels and their current readings.
    pub fn get_temperatures(&self) -> (r: Vec<(String, u32)>)
        ensures
            r@.len() == 3,
            r@[0].0@ == "water"@ && r@[0].1 == self.water_temp,
            r@[1].0@ == "air"@ && r@[1].1 == self.air_temp,
            r@[2].0@ == "solar"@ && r@[2].1 == self.solar_temp,
    {
        let mut r: Vec<(String, u32)> = Vec::new();
        r.push(("water".to_owned(), self.water_temp));
        r.push(("air".to_owned(), self.air_temp));
        r.push(("solar".to_owned(), self.solar_temp));
        r
    }
}

/// An elementwise copy of a vector of booleans.
pub fn clone_bool_vec(v: &Vec<bool>) -> (r: Vec<bool>)
    ensures
        r@ == v@,
{
    let mut r: Vec<bool> = Vec::new();
    let mut i: usize = 0;
    while i < v.len()
        invariant
            i <= v.len(),
            r@ == v@.subrange(0, i as int),
        decreases v.len() - i,
    {
        r.push(v[i]);
        proof {
            assert(r@ =~= v@.subrange(0, i as int + 1));
        }
        i = i + 1;
    }
    proof {
        assert(r@ =~= v@);
    }
    r
}

} // verus!
