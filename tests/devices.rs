use adb_wireless::devices::parse_device_list;

#[test]
fn lists_attached_devices_after_header() {
    let out = "List of devices attached\nemulator-5554\tdevice\n192.168.1.20:5555\tdevice\n\n";
    assert_eq!(parse_device_list(out), vec!["emulator-5554", "192.168.1.20:5555"]);
}

#[test]
fn skips_devices_in_other_states() {
    let out = "List of devices attached\nR58M\tunauthorized\nXYZ\toffline\nABC device usb:1-1 product:x\n";
    assert_eq!(parse_device_list(out), vec!["ABC"]);
}

#[test]
fn header_line_is_never_a_device() {
    assert!(parse_device_list("emulator-5554 device\n").is_empty());
    assert!(parse_device_list("").is_empty());
    assert!(parse_device_list("header").is_empty());
}

#[test]
fn handles_crlf_and_missing_final_newline() {
    let out = "List of devices attached\r\n  dev1   device\r\ndev2\tdevice";
    assert_eq!(parse_device_list(out), vec!["dev1", "dev2"]);
}

#[test]
fn second_word_must_be_exactly_device() {
    let out = "h\nA devices\nB Device\nC\nD device extra\n";
    assert_eq!(parse_device_list(out), vec!["D"]);
}

#[test]
fn agrees_with_std_splitting() {
    let out = "List\n a  device \n\u{3000}b\u{2003}device\nc\u{85}device\n\nd\tdevice\r\n";
    let expected: Vec<String> = out
        .lines()
        .skip(1)
        .filter_map(|line| {
            let parts: Vec<&str> = line.split_whitespace().collect();
            if parts.len() >= 2 && parts[1] == "device" {
                Some(parts[0].to_string())
            } else {
                None
            }
        })
        .collect();
    assert_eq!(parse_device_list(out), expected);
}
