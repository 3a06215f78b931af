use ssfs::args::{bind_address, parse_args, str_eq, ArgError};
use ssfs::decimal::{parse_port, u16_to_decimal};

fn strings(tokens: &[&str]) -> Vec<String> {
    tokens.iter().map(|t| t.to_string()).collect()
}

#[test]
fn no_flags_gives_defaults() {
    let cfg = parse_args(&strings(&[])).unwrap();
    assert_eq!(cfg.ip, "0.0.0.0");
    assert_eq!(cfg.port, 8443);
}

#[test]
fn both_flags_resolved() {
    let cfg = parse_args(&strings(&["--ip", "127.0.0.1", "--port", "9000"])).unwrap();
    assert_eq!(cfg.ip, "127.0.0.1");
    assert_eq!(cfg.port, 9000);
}

#[test]
fn flags_in_either_order() {
    let cfg = parse_args(&strings(&["--port", "9000", "--ip", "10.0.0.1"])).unwrap();
    assert_eq!(cfg.ip, "10.0.0.1");
    assert_eq!(cfg.port, 9000);
}

#[test]
fn only_ip_keeps_default_port() {
    let cfg = parse_args(&strings(&["--ip", "192.168.1.2"])).unwrap();
    assert_eq!(cfg.ip, "192.168.1.2");
    assert_eq!(cfg.port, 8443);
}

#[test]
fn only_port_keeps_default_ip() {
    let cfg = parse_args(&strings(&["--port", "443"])).unwrap();
    assert_eq!(cfg.ip, "0.0.0.0");
    assert_eq!(cfg.port, 443);
}

#[test]
fn port_bounds_accepted() {
    assert_eq!(parse_args(&strings(&["--port", "0"])).unwrap().port, 0);
    assert_eq!(parse_args(&strings(&["--port", "65535"])).unwrap().port, 65535);
}

#[test]
fn port_above_bound_rejected() {
    let r = parse_args(&strings(&["--port", "65536"]));
    assert_eq!(r.unwrap_err(), ArgError::InvalidPort);
}

#[test]
fn non_numeric_port_rejected() {
    let r = parse_args(&strings(&["--port", "abc"]));
    assert_eq!(r.unwrap_err(), ArgError::InvalidPort);
}

#[test]
fn missing_port_value_rejected() {
    let r = parse_args(&strings(&["--port"]));
    assert_eq!(r.unwrap_err(), ArgError::MissingPortValue);
}

#[test]
fn missing_ip_value_rejected() {
    let r = parse_args(&strings(&["--ip"]));
    assert_eq!(r.unwrap_err(), ArgError::MissingIpValue);
}

#[test]
fn duplicate_ip_rejected() {
    let r = parse_args(&strings(&["--ip", "0.0.0.0", "--ip", "1.1.1.1"]));
    assert_eq!(r.unwrap_err(), ArgError::DuplicateIp);
}

#[test]
fn duplicate_port_rejected() {
    let r = parse_args(&strings(&["--port", "80", "--port", "81"]));
    assert_eq!(r.unwrap_err(), ArgError::DuplicatePort);
}

#[test]
fn unknown_flag_rejected() {
    let r = parse_args(&strings(&["--verbose"]));
    assert_eq!(r.unwrap_err(), ArgError::UnknownArgument);
}

#[test]
fn stray_value_rejected() {
    let r = parse_args(&strings(&["8443"]));
    assert_eq!(r.unwrap_err(), ArgError::UnknownArgument);
}

#[test]
fn bind_address_default_shape() {
    let cfg = parse_args(&strings(&[])).unwrap();
    assert_eq!(cfg.bind_address(), "0.0.0.0:8443");
}

#[test]
fn bind_address_joins_ip_and_port() {
    assert_eq!(bind_address("127.0.0.1", 9000), "127.0.0.1:9000");
    assert_eq!(bind_address("::1", 65535), "::1:65535");
    assert_eq!(bind_address("0.0.0.0", 0), "0.0.0.0:0");
}

#[test]
fn parse_port_exact_values() {
    assert_eq!(parse_port("8443"), Some(8443));
    assert_eq!(parse_port("0"), Some(0));
    assert_eq!(parse_port("65535"), Some(65535));
    assert_eq!(parse_port("00443"), Some(443));
}

#[test]
fn parse_port_rejects_bad_strings() {
    assert_eq!(parse_port(""), None);
    assert_eq!(parse_port("65536"), None);
    assert_eq!(parse_port("123456789012345678901234567890"), None);
    assert_eq!(parse_port("12a"), None);
    assert_eq!(parse_port("-1"), None);
    assert_eq!(parse_port("+1"), None);
    assert_eq!(parse_port(" 1"), None);
}

#[test]
fn u16_to_decimal_exact_values() {
    assert_eq!(u16_to_decimal(0), "0");
    assert_eq!(u16_to_decimal(7), "7");
    assert_eq!(u16_to_decimal(8443), "8443");
    assert_eq!(u16_to_decimal(65535), "65535");
    assert_eq!(u16_to_decimal(10), "10");
}

#[test]
fn str_eq_agrees_with_equality() {
    assert!(str_eq("--ip", "--ip"));
    assert!(!str_eq("--ip", "--port"));
    assert!(!str_eq("--ip", "--ip "));
    assert!(str_eq("", ""));
}
