use vstd::prelude::*;

use crate::config_json;

verus! {

/// The root configuration structure. The surrounding application reads
/// it from JSON (for compatibility with nodejs-poolController) and hands
/// it over as plain values.
#[derive(Debug)]
pub struct PoolConfig {
    pub comms: config_json::Comms,
    pub port_parameters: config_json::PortParameters,
    pub system_parameters: config_json::SystemParameters,
}

} // verus!
