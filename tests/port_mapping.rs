use adb_wireless::{CliError, PortMapping};

fn invalid(text: &str) -> CliError {
    CliError::InvalidPortMapping(text.to_string())
}

#[test]
fn parses_device_and_host_port() {
    let m = PortMapping::new("8081:8080").unwrap();
    assert_eq!(m.device_port, 8081);
    assert_eq!(m.host_port, 8080);
}

#[test]
fn parses_extreme_ports() {
    let m = PortMapping::new("0:65535").unwrap();
    assert_eq!(m.device_port, 0);
    assert_eq!(m.host_port, 65535);
    let m = PortMapping::new("65535:0").unwrap();
    assert_eq!(m.device_port, 65535);
    assert_eq!(m.host_port, 0);
}

#[test]
fn parses_leading_zeros() {
    let m = PortMapping::new("007:0080").unwrap();
    assert_eq!(m.device_port, 7);
    assert_eq!(m.host_port, 80);
}

#[test]
fn rejects_signed_parts() {
    assert_eq!(PortMapping::new("+80:90"), Err(invalid("+80:90")));
    assert_eq!(PortMapping::new("80:+90"), Err(invalid("80:+90")));
    assert_eq!(PortMapping::new("007:+80"), Err(invalid("007:+80")));
}

#[test]
fn rejects_missing_colon() {
    assert_eq!(PortMapping::new("8080"), Err(invalid("8080")));
    assert_eq!(PortMapping::new(""), Err(invalid("")));
}

#[test]
fn rejects_more_than_one_colon() {
    assert_eq!(PortMapping::new("1:2:3"), Err(invalid("1:2:3")));
    assert_eq!(PortMapping::new("::"), Err(invalid("::")));
}

#[test]
fn rejects_empty_parts() {
    assert_eq!(PortMapping::new(":80"), Err(invalid(":80")));
    assert_eq!(PortMapping::new("80:"), Err(invalid("80:")));
    assert_eq!(PortMapping::new(":"), Err(invalid(":")));
    assert_eq!(PortMapping::new("+:80"), Err(invalid("+:80")));
}

#[test]
fn rejects_non_numeric_parts() {
    assert_eq!(PortMapping::new("a:80"), Err(invalid("a:80")));
    assert_eq!(PortMapping::new("80:8o"), Err(invalid("80:8o")));
    assert_eq!(PortMapping::new(" 80:80"), Err(invalid(" 80:80")));
    assert_eq!(PortMapping::new("-1:80"), Err(invalid("-1:80")));
    assert_eq!(PortMapping::new("80:٣"), Err(invalid("80:٣")));
}

#[test]
fn rejects_out_of_range_parts() {
    assert_eq!(PortMapping::new("65536:80"), Err(invalid("65536:80")));
    assert_eq!(PortMapping::new("80:99999999999999999999"), Err(invalid("80:99999999999999999999")));
}

#[test]
fn agrees_with_digit_rule_on_sample_mappings() {
    for text in ["1:2", "65535:65535", "65536:1", "12a:3", "+1:+2", "++1:2", "1: 2", "+1:2", "00001:065535"] {
        let parts: Vec<&str> = text.split(':').collect();
        let expected = if parts.len() == 2 {
            let digits = |p: &str| !p.is_empty() && p.bytes().all(|b| b.is_ascii_digit());
            match (parts[0].parse::<u16>(), parts[1].parse::<u16>()) {
                (Ok(d), Ok(h)) if digits(parts[0]) && digits(parts[1]) => Some((d, h)),
                _ => None,
            }
        } else {
            None
        };
        match PortMapping::new(text) {
            Ok(m) => assert_eq!(Some((m.device_port, m.host_port)), expected),
            Err(e) => {
                assert_eq!(expected, None);
                assert_eq!(e, invalid(text));
            }
        }
    }
}
