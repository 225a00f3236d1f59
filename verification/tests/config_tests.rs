use pentair::config::PoolConfig;
use pentair::config_json::{
    decode_char_size, decode_parity, decode_stop_bits, default_baud_rate, default_char_size,
    default_device_id, default_enabled, default_parity, default_stop_bits, default_timeout_msec,
    port_settings, CharSize, Comms, Parity, PortParameters, PortSettings, StopBits,
    SystemParameters,
};
use pentair::controller::Controller;

#[test]
fn char_size_decoding() {
    assert_eq!(decode_char_size(5), CharSize::Bits5);
    assert_eq!(decode_char_size(6), CharSize::Bits6);
    assert_eq!(decode_char_size(7), CharSize::Bits7);
    assert_eq!(decode_char_size(8), CharSize::Bits8);
}

#[test]
fn parity_decoding() {
    assert_eq!(decode_parity("None"), Parity::ParityNone);
    assert_eq!(decode_parity("Odd"), Parity::ParityOdd);
    assert_eq!(decode_parity("Even"), Parity::ParityEven);
}

#[test]
fn stop_bits_decoding() {
    assert_eq!(decode_stop_bits(1), StopBits::Stop1);
    assert_eq!(decode_stop_bits(2), StopBits::Stop2);
}

#[test]
fn defaults_match_protocol_line() {
    assert!(default_enabled());
    assert_eq!(default_baud_rate(), 9600);
    assert_eq!(default_char_size(), 8);
    assert_eq!(default_parity(), "None");
    assert_eq!(default_stop_bits(), 1);
    assert_eq!(default_timeout_msec(), 1000);
    assert_eq!(default_device_id(), 0);
}

#[test]
fn port_settings_from_parameters() {
    let parameters = PortParameters {
        port_name: "/dev/ttyUSB0".to_string(),
        baud_rate: 9600,
        char_size: 8,
        parity: "None".to_string(),
        stop_bits: 1,
        timeout_msec: 1000,
        samples_file: None,
    };
    let settings = port_settings(&parameters);
    assert_eq!(
        settings,
        PortSettings {
            baud_rate: 9600,
            char_size: CharSize::Bits8,
            parity: Parity::ParityNone,
            stop_bits: StopBits::Stop1,
        }
    );
}

#[test]
fn pool_config_holds_sections() {
    let config = PoolConfig {
        comms: Comms {
            http_listen_address: Some("127.0.0.1:3000".to_string()),
            https_listen_address: None,
            cert_path: None,
            key_path: None,
        },
        port_parameters: PortParameters {
            port_name: "/dev/ttyUSB0".to_string(),
            baud_rate: 9600,
            char_size: 8,
            parity: "None".to_string(),
            stop_bits: 1,
            timeout_msec: 1000,
            samples_file: None,
        },
        system_parameters: SystemParameters { sample_file: None, controller_id: 0 },
    };
    assert_eq!(config.comms.http_listen_address.as_deref(), Some("127.0.0.1:3000"));
    assert_eq!(config.port_parameters.baud_rate, 9600);
    assert_eq!(config.system_parameters.controller_id, 0);
}

#[test]
fn controller_defaults() {
    let controller = Controller::new();
    assert_eq!(controller.comms.c_type, "RS485");
    assert_eq!(controller.comms.portId, 0);
    assert!(controller.comms.enabled);
    assert_eq!(controller.comms.rs485Port, "/dev/ttyUSB0");
    assert!(!controller.backup.automatic);
    assert_eq!(controller.backup.interval.days, 40);
    assert_eq!(controller.backup.interval.hours, 0);
    assert_eq!(controller.backup.keepCount, 0);
    assert!(!controller.backup.njsPC);
    assert!(controller.backup.servers.is_empty());
}
