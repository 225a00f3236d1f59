use vstd::prelude::*;

verus! {

// Controller parameters.

/// Character size of the serial line, in bits per character.
#[derive(Clone, Copy, Debug, PartialEq, Eq, Structural)]
pub enum CharSize {
    Bits5,
    Bits6,
    Bits7,
    Bits8,
}

/// Parity protection of the serial line.
#[derive(Clone, Copy, Debug, PartialEq, Eq, Structural)]
pub enum Parity {
    ParityNone,
    ParityOdd,
    ParityEven,
}

/// Number of stop bits of the serial line.
#[derive(Clone, Copy, Debug, PartialEq, Eq, Structural)]
pub enum StopBits {
    Stop1,
    Stop2,
}

pub fn default_enabled() -> (r: bool)
    ensures
        r == true,
{
    true
}

pub fn default_baud_rate() -> (r: usize)
    ensures
        r == 9600,
{
    9600
}

pub fn default_char_size() -> (r: u32)
    ensures
        r == 8,
{
    8
}

pub fn default_parity() -> (r: String)
    ensures
        r@ == "None"@,
{
    "None".to_owned()
}

pub fn default_stop_bits() -> (r: u32)
    ensures
        r == 1,
{
    1
}

pub fn default_timeout_msec() -> (r: u32)
    ensures
        r == 1000,
{
    1000
}

pub fn default_device_id() -> (r: u8)
    ensures
        r == 0,
{
    0
}

/// Network addresses the state is served on.
#[derive(Debug)]
pub struct Comms {
    /// The http listen address.
    pub http_listen_address: Option<String>,
    /// If set, https is used instead, with the certificate and key below.
    pub https_listen_address: Option<String>,
    pub cert_path: Option<String>,
    pub key_path: Option<String>,
}

/// Serial-port parameters of the bus connection.
#[derive(Debug)]
pub struct PortParameters {
    pub port_name: String,
    pub baud_rate: usize,
    pub char_size: u32,
    pub parity: String,
    pub stop_bits: u32,
    pub timeout_msec: u32,
    /// If set, the packets will be saved to this file.
    pub samples_file: Option<String>,
}

/// System-wide parameters.
#[derive(Debug)]
pub struct SystemParameters {
    pub sample_file: Option<String>,
    pub controller_id: u8,
}

/// Maps the configured character-size number to the line setting.
/// Anything outside 5 to 8 bits is invalid configuration and must be
/// rejected by the caller before the port is configured.
pub fn decode_char_size(char_size: u32) -> (r: CharSize)
    requires
        5 <= char_size <= 8,
    ensures
        char_size == 5 ==> r == CharSize::Bits5,
        char_size == 6 ==> r == CharSize::Bits6,
        char_size == 7 ==> r == CharSize::Bits7,
        char_size == 8 ==> r == CharSize::Bits8,
{
    if char_size == 5 {
        CharSize::Bits5
    } else if char_size == 6 {
        CharSize::Bits6
    } else if char_size == 7 {
        CharSize::Bits7
    } else {
        CharSize::Bits8
    }
}

/// Maps the configured parity name to the line setting. Any other name
/// is invalid configuration and must be rejected by the caller.
pub fn decode_parity(parity: &str) -> (r: Parity)
    requires
        parity@ == "None"@ || parity@ == "Odd"@ || parity@ == "Even"@,
    ensures
        parity@ == "None"@ ==> r == Parity::ParityNone,
        parity@ == "Odd"@ ==> r == Parity::ParityOdd,
        parity@ == "Even"@ ==> r == Parity::ParityEven,
{
    proof {
        reveal_strlit("None");
        reveal_strlit("Odd");
        reveal_strlit("Even");
        assert("None"@.len() != "Odd"@.len());
        assert("Odd"@.len() != "Even"@.len());
        assert("None"@[0] != "Even"@[0]);
    }
    let name: String = parity.to_owned();
    if name == "None".to_owned() {
        Parity::ParityNone
    } else if name == "Odd".to_owned() {
        Parity::ParityOdd
    } else {
        Parity::ParityEven
    }
}

/// Maps the configured stop-bit count to the line setting. Any other
/// count is invalid configuration and must be rejected by the caller.
pub fn decode_stop_bits(stop_bits: u32) -> (r: StopBits)
    requires
        1 <= stop_bits <= 2,
    ensures
        stop_bits == 1 ==> r == StopBits::Stop1,
        stop_bits == 2 ==> r == StopBits::Stop2,
{
    if stop_bits == 1 {
        StopBits::Stop1
    } else {
        StopBits::Stop2
    }
}

/// The decoded line settings a port is configured with.
#[derive(Clone, Copy, Debug, PartialEq, Eq, Structural)]
pub struct PortSettings {
    pub baud_rate: usize,
    pub char_size: CharSize,
    pub parity: Parity,
    pub stop_bits: StopBits,
}

/// Decodes the configured port parameters into line settings.
pub fn port_settings(parameters: &PortParameters) -> (r: PortSettings)
    requires
        5 <= parameters.char_size <= 8,
        parameters.parity@ == "None"@ || parameters.parity@ == "Odd"@ || parameters.parity@
            == "Even"@,
        1 <= parameters.stop_bits <= 2,
    ensures
        r.baud_rate == parameters.baud_rate,
        parameters.char_size == 8 ==> r.char_size == CharSize::Bits8,
        parameters.parity@ == "None"@ ==> r.parity == Parity::ParityNone,
        parameters.stop_bits == 1 ==> r.stop_bits == StopBits::Stop1,
{
    PortSettings {
        baud_rate: parameters.baud_rate,
        char_size: decode_char_size(parameters.char_size),
        parity: decode_parity(parameters.parity.as_str()),
        stop_bits: decode_stop_bits(parameters.stop_bits),
    }
}

} // verus!
