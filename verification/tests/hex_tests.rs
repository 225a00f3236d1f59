use pentair::hexutil::{parse_hex_string, vec_u8_to_hex_string};
use pentair::ui::ControlInput;

#[test]
fn parse_hex_string_decodes_pairs() {
    assert_eq!(parse_hex_string("4142"), Some(vec![0x41, 0x42]));
    assert_eq!(parse_hex_string(""), Some(vec![]));
    assert_eq!(parse_hex_string("00ff00ffa5"), Some(vec![0x00, 0xff, 0x00, 0xff, 0xa5]));
    assert_eq!(parse_hex_string("DeAd"), Some(vec![0xde, 0xad]));
}

#[test]
fn parse_hex_string_rejects_bad_input() {
    assert_eq!(parse_hex_string("4"), None);
    assert_eq!(parse_hex_string("414"), None);
    assert_eq!(parse_hex_string("4g"), None);
    assert_eq!(parse_hex_string("zz"), None);
}

#[test]
fn hex_string_formats_bytes() {
    assert_eq!(vec_u8_to_hex_string(&vec![0xde, 0xad, 0x00, 0x0f]), "dead000f");
    assert_eq!(vec_u8_to_hex_string(&vec![]), "");
}

#[test]
fn hex_round_trip() {
    let bytes = vec![0x00, 0x0f, 0x10, 0x02, 0xa5, 0xff];
    let text = vec_u8_to_hex_string(&bytes);
    assert_eq!(parse_hex_string(&text), Some(bytes));
}

#[test]
fn control_input_desired_on() {
    let on = ControlInput { control_name: "pool".to_string(), state: "on".to_string() };
    assert!(on.desired_on());
    let off = ControlInput { control_name: "pool".to_string(), state: "off".to_string() };
    assert!(!off.desired_on());
}
