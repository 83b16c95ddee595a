use krunvm::mac::mac_from_random_bytes;
use krunvm::utils::{
    balloon_pages, balloon_set_cmd, balloon_stats_cmd, control_socket_path, parse_balloon_stats,
    parse_mac, shell_escape, validate_balloon, validate_capability, PathPair, PortPair,
};

// === parse_mac ===

#[test]
fn parse_mac_valid_lowercase() {
    assert_eq!(
        parse_mac("aa:bb:cc:dd:ee:ff").unwrap(),
        [0xaa, 0xbb, 0xcc, 0xdd, 0xee, 0xff]
    );
}

#[test]
fn parse_mac_valid_all_zeros() {
    assert_eq!(parse_mac("00:00:00:00:00:00").unwrap(), [0; 6]);
}

#[test]
fn parse_mac_valid_uppercase() {
    assert_eq!(
        parse_mac("AA:BB:CC:DD:EE:FF").unwrap(),
        [0xaa, 0xbb, 0xcc, 0xdd, 0xee, 0xff]
    );
}

#[test]
fn parse_mac_invalid_garbage() {
    let err = parse_mac("ZZZZ").unwrap_err();
    assert!(err.contains("expected 6"));
}

#[test]
fn parse_mac_too_few_pairs() {
    let err = parse_mac("aa:bb:cc").unwrap_err();
    assert!(err.contains("expected 6"));
}

#[test]
fn parse_mac_invalid_hex_byte() {
    let err = parse_mac("gg:bb:cc:dd:ee:ff").unwrap_err();
    assert!(err.contains("'gg'"));
}

#[test]
fn parse_mac_too_many_pairs() {
    let err = parse_mac("aa:bb:cc:dd:ee:ff:00").unwrap_err();
    assert!(err.contains("expected 6"));
}

// === generate_mac (formatting of the random bytes) ===

const RANDOM_SAMPLES: [[u8; 6]; 5] = [
    [0x00, 0x00, 0x00, 0x00, 0x00, 0x00],
    [0xff, 0xff, 0xff, 0xff, 0xff, 0xff],
    [0x01, 0x23, 0x45, 0x67, 0x89, 0xab],
    [0xfe, 0xdc, 0xba, 0x98, 0x76, 0x54],
    [0x03, 0x10, 0x0a, 0xa0, 0x5c, 0xc5],
];

#[test]
fn generate_mac_format() {
    for random in RANDOM_SAMPLES {
        let mac = mac_from_random_bytes(random);
        assert_eq!(mac.len(), 17);
        assert_eq!(mac.matches(':').count(), 5);
    }
}

#[test]
fn generate_mac_locally_administered_bit() {
    for random in RANDOM_SAMPLES {
        let mac = mac_from_random_bytes(random);
        let first_byte = u8::from_str_radix(&mac[..2], 16).unwrap();
        assert_eq!(first_byte & 0x02, 0x02);
    }
}

#[test]
fn generate_mac_unicast_bit() {
    for random in RANDOM_SAMPLES {
        let mac = mac_from_random_bytes(random);
        let first_byte = u8::from_str_radix(&mac[..2], 16).unwrap();
        assert_eq!(first_byte & 0x01, 0x00);
    }
}

#[test]
fn generate_mac_roundtrip() {
    for random in RANDOM_SAMPLES {
        let mac = mac_from_random_bytes(random);
        assert!(parse_mac(&mac).is_ok());
    }
}

// === PortPair::from_str ===

#[test]
fn port_pair_valid() {
    let pair: PortPair = "8080:80".parse().unwrap();
    assert_eq!(pair.host_port, "8080");
    assert_eq!(pair.guest_port, "80");
}

#[test]
fn port_pair_invalid_host() {
    assert!("abc:80".parse::<PortPair>().is_err());
}

#[test]
fn port_pair_too_many_separators() {
    assert!("80:80:80".parse::<PortPair>().is_err());
}

// === PathPair::from_str ===

#[test]
fn path_pair_valid() {
    let pair: PathPair = "/tmp:/guest".parse().unwrap();
    assert_eq!(pair.host_path, "/tmp");
    assert_eq!(pair.guest_path, "/guest");
}

#[test]
fn path_pair_relative_host() {
    let err = "relative:/guest".parse::<PathPair>().unwrap_err();
    assert!(err.contains("not an absolute"));
}

#[test]
fn path_pair_guest_too_deep() {
    let err = "/tmp:/a/b/c".parse::<PathPair>().unwrap_err();
    assert!(err.contains("single direct root"));
}

// === validate_capability ===

#[test]
fn validate_cap_uppercase_with_prefix() {
    assert_eq!(validate_capability("CAP_NET_RAW").unwrap(), "net_raw");
}

#[test]
fn validate_cap_lowercase_with_prefix() {
    assert_eq!(validate_capability("cap_sys_admin").unwrap(), "sys_admin");
}

#[test]
fn validate_cap_without_prefix() {
    assert_eq!(validate_capability("sys_ptrace").unwrap(), "sys_ptrace");
}

#[test]
fn validate_cap_mixed_case() {
    assert_eq!(validate_capability("Cap_Net_Raw").unwrap(), "net_raw");
}

#[test]
fn validate_cap_unknown() {
    let err = validate_capability("CAP_DOES_NOT_EXIST").unwrap_err();
    assert!(err.contains("Unknown capability"));
}

#[test]
fn validate_cap_empty() {
    assert!(validate_capability("").is_err());
}

// === validate_balloon ===

#[test]
fn validate_balloon_valid() {
    assert_eq!(validate_balloon(64, 192).unwrap(), 64);
}

#[test]
fn validate_balloon_equal_to_mem() {
    let err = validate_balloon(192, 192).unwrap_err();
    assert!(err.contains("must be less than"));
}

#[test]
fn validate_balloon_exceeds_mem() {
    let err = validate_balloon(256, 192).unwrap_err();
    assert!(err.contains("must be less than"));
}

#[test]
fn validate_balloon_below_minimum() {
    let err = validate_balloon(16, 192).unwrap_err();
    assert!(err.contains("at least 32 MiB"));
}

#[test]
fn validate_balloon_exact_minimum() {
    assert_eq!(validate_balloon(32, 192).unwrap(), 32);
}

#[test]
fn validate_balloon_one_above_minimum() {
    assert_eq!(validate_balloon(33, 192).unwrap(), 33);
}

#[test]
fn validate_balloon_one_below_mem() {
    assert_eq!(validate_balloon(191, 192).unwrap(), 191);
}

// === balloon_pages ===

#[test]
fn balloon_pages_standard() {
    // 192 - 64 = 128 MiB inflated, 128 * 256 = 32768 pages
    assert_eq!(balloon_pages(192, 64), 32768);
}

#[test]
fn balloon_pages_minimal_inflation() {
    // 192 - 191 = 1 MiB inflated, 1 * 256 = 256 pages
    assert_eq!(balloon_pages(192, 191), 256);
}

#[test]
fn balloon_pages_large_inflation() {
    // 1024 - 32 = 992 MiB inflated, 992 * 256 = 253952 pages
    assert_eq!(balloon_pages(1024, 32), 253952);
}

// === control_socket_path ===

#[test]
fn control_socket_path_format() {
    assert_eq!(control_socket_path("my-vm"), "/tmp/krunvm-my-vm.sock");
}

#[test]
fn control_socket_path_with_special_chars() {
    assert_eq!(
        control_socket_path("test_vm-123"),
        "/tmp/krunvm-test_vm-123.sock"
    );
}

// === balloon JSON commands ===

#[test]
fn balloon_set_cmd_format() {
    let cmd = balloon_set_cmd(128);
    let val: serde_json::Value = serde_json::from_str(&cmd).unwrap();
    assert_eq!(val["cmd"], "balloon_set");
    assert_eq!(val["target_mib"], 128);
}

#[test]
fn balloon_stats_cmd_format() {
    let cmd = balloon_stats_cmd();
    let val: serde_json::Value = serde_json::from_str(&cmd).unwrap();
    assert_eq!(val["cmd"], "balloon_stats");
}

// === parse_balloon_stats ===

#[test]
fn parse_balloon_stats_success() {
    let response = r#"{"ok":true,"actual_mib":64,"target_mib":128,"free_mib":12}"#;
    let (actual, target, free) = parse_balloon_stats(response).unwrap();
    assert_eq!(actual, 64);
    assert_eq!(target, 128);
    assert_eq!(free, 12);
}

#[test]
fn parse_balloon_stats_zero_free() {
    let response = r#"{"ok":true,"actual_mib":64,"target_mib":128,"free_mib":0}"#;
    let (actual, target, free) = parse_balloon_stats(response).unwrap();
    assert_eq!(actual, 64);
    assert_eq!(target, 128);
    assert_eq!(free, 0);
}

#[test]
fn parse_balloon_stats_missing_fields_default_zero() {
    let response = r#"{"ok":true}"#;
    let (actual, target, free) = parse_balloon_stats(response).unwrap();
    assert_eq!(actual, 0);
    assert_eq!(target, 0);
    assert_eq!(free, 0);
}

#[test]
fn parse_balloon_stats_error_response() {
    let response = r#"{"ok":false,"error":"balloon device not configured"}"#;
    let err = parse_balloon_stats(response).unwrap_err();
    assert_eq!(err, "balloon device not configured");
}

#[test]
fn parse_balloon_stats_invalid_json() {
    let err = parse_balloon_stats("not json").unwrap_err();
    assert!(err.contains("Failed to parse"));
}

// === parse_mac: reject non-canonical octets ===

#[test]
fn parse_mac_rejects_single_digit_octets() {
    assert!(parse_mac("1:2:3:4:5:6").is_err());
}

#[test]
fn parse_mac_rejects_non_canonical_lowercase() {
    assert!(parse_mac("a:b:c:d:e:f").is_err());
}

#[test]
fn parse_mac_accepts_canonical_zero_padded() {
    assert_eq!(
        parse_mac("01:02:03:04:05:06").unwrap(),
        [0x01, 0x02, 0x03, 0x04, 0x05, 0x06]
    );
}

#[test]
fn parse_mac_rejects_three_digit_octet() {
    assert!(parse_mac("001:02:03:04:05:06").is_err());
}

// === shell_escape ===

#[test]
fn shell_escape_simple_path() {
    assert_eq!(shell_escape("/usr/local/bin"), "'/usr/local/bin'");
}

#[test]
fn shell_escape_path_with_spaces() {
    assert_eq!(shell_escape("/my path/dir"), "'/my path/dir'");
}

#[test]
fn shell_escape_path_with_single_quote() {
    assert_eq!(shell_escape("it's"), "'it'\\''s'");
}

#[test]
fn shell_escape_path_with_double_quote() {
    assert_eq!(shell_escape("say \"hello\""), "'say \"hello\"'");
}

#[test]
fn shell_escape_path_with_dollar() {
    assert_eq!(shell_escape("/home/$USER"), "'/home/$USER'");
}

#[test]
fn shell_escape_path_with_backtick() {
    assert_eq!(shell_escape("/tmp/`whoami`"), "'/tmp/`whoami`'");
}

#[test]
fn shell_escape_path_with_newline() {
    assert_eq!(shell_escape("/tmp/a\nb"), "'/tmp/a\nb'");
}

#[test]
fn shell_escape_empty_string() {
    assert_eq!(shell_escape(""), "''");
}

// === control_socket: conditional on balloon ===

#[test]
fn control_socket_none_without_balloon() {
    let balloon: Option<u32> = None;
    let socket = balloon.map(|_| control_socket_path("test-vm"));
    assert!(socket.is_none());
}

#[test]
fn control_socket_some_with_balloon() {
    let balloon: Option<u32> = Some(64);
    let socket = balloon.map(|_| control_socket_path("test-vm"));
    assert_eq!(socket, Some("/tmp/krunvm-test-vm.sock".to_string()));
}
