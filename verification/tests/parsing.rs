use std::path::Path;

use krunvm::decimal::{decimal_string, parse_u16};
use krunvm::mac::{mac_from_random_bytes, parse_mac};
use krunvm::pairs::{
    decide_path_pair, path_pairs_to_hash_map, port_pairs_to_hash_map, PathPair, PortPair,
};
use krunvm::shell::shell_escape;
use krunvm::text::{char_is_whitespace, trim};

/// How a POSIX shell reads a word built only from quoted text.
fn read_quoted_word(w: &str) -> Option<String> {
    let mut out = String::new();
    let mut in_quotes = false;
    let mut chars = w.chars();
    while let Some(c) = chars.next() {
        if in_quotes {
            if c == '\'' {
                in_quotes = false;
            } else {
                out.push(c);
            }
        } else if c == '\'' {
            in_quotes = true;
        } else if c == '\\' {
            out.push(chars.next()?);
        } else {
            return None;
        }
    }
    if in_quotes {
        None
    } else {
        Some(out)
    }
}

#[test]
fn shell_escape_reads_back() {
    for s in ["", "plain", "it's", "''", "a'b'c", "$(rm -rf /)", "tab\there", "\\'\\", "ünïcødé'"] {
        assert_eq!(read_quoted_word(&shell_escape(s)), Some(s.to_string()), "{s:?}");
    }
}

#[test]
fn shell_escape_only_quote_is_expanded() {
    assert_eq!(shell_escape("''"), "''\\'''\\'''");
}

#[test]
fn parse_mac_rejects_plus_sign() {
    assert_eq!(
        parse_mac("+a:bb:cc:dd:ee:ff").unwrap_err(),
        "Invalid MAC address '+a:bb:cc:dd:ee:ff': '+a' is not a valid hex byte"
    );
}

#[test]
fn parse_mac_exact_messages() {
    assert_eq!(
        parse_mac("aa:bb").unwrap_err(),
        "Invalid MAC address 'aa:bb': expected 6 colon-separated hex pairs"
    );
    assert_eq!(
        parse_mac("aa:b:cc:dd:ee:ff").unwrap_err(),
        "Invalid MAC address 'aa:b:cc:dd:ee:ff': 'b' must be exactly two hex digits"
    );
    assert_eq!(
        parse_mac("aa:bb:cc:dd:ee:-1").unwrap_err(),
        "Invalid MAC address 'aa:bb:cc:dd:ee:-1': '-1' is not a valid hex byte"
    );
}

#[test]
fn parse_mac_two_byte_character_is_not_hex() {
    // "é" is one character of two UTF-8 bytes: the length check passes and
    // the hex check fails.
    let err = parse_mac("é:bb:cc:dd:ee:ff").unwrap_err();
    assert!(err.ends_with("'é' is not a valid hex byte"), "{err}");
    let err = parse_mac("éa:bb:cc:dd:ee:ff").unwrap_err();
    assert!(err.ends_with("'éa' must be exactly two hex digits"), "{err}");
}

#[test]
fn parse_mac_first_bad_part_wins() {
    let err = parse_mac("zz:b:cc:dd:ee:ff").unwrap_err();
    assert!(err.contains("'zz' is not a valid hex byte"), "{err}");
}

#[test]
fn generated_mac_exact_text() {
    assert_eq!(mac_from_random_bytes([0x00, 0x01, 0x02, 0xa0, 0xfe, 0xff]), "02:01:02:a0:fe:ff");
    assert_eq!(mac_from_random_bytes([0xff; 6]), "fe:ff:ff:ff:ff:ff");
    assert_eq!(mac_from_random_bytes([0x13, 0, 0, 0, 0, 0x0f]), "12:00:00:00:00:0f");
}

#[test]
fn generated_mac_parses_to_its_bytes() {
    let random = [0x5d, 0x42, 0x00, 0x99, 0xc3, 0x7e];
    let mac = mac_from_random_bytes(random);
    let bytes = parse_mac(&mac).unwrap();
    assert_eq!(bytes, [(0x5d | 2) & 0xfe, 0x42, 0x00, 0x99, 0xc3, 0x7e]);
}

#[test]
fn parse_u16_agrees_with_std() {
    for s in [
        "", "+", "-", "0", "00080", "+80", "++80", "-0", "65535", "65536", "99999999999", "8a",
        " 80", "80 ", "١٢", "+0", "000000000000000000001",
    ] {
        assert_eq!(parse_u16(s), s.parse::<u16>().ok(), "{s:?}");
    }
}

#[test]
fn decimal_string_agrees_with_to_string() {
    for n in [0u64, 7, 10, 99, 100, 65535, 4294967295, u64::MAX] {
        assert_eq!(decimal_string(n), n.to_string());
    }
}

#[test]
fn port_pair_is_canonical() {
    let pair: PortPair = "+08080:0080".parse().unwrap();
    assert_eq!(pair.host_port, "8080");
    assert_eq!(pair.guest_port, "80");
    let again: PortPair = format!("{}:{}", pair.host_port, pair.guest_port).parse().unwrap();
    assert_eq!(again.host_port, pair.host_port);
    assert_eq!(again.guest_port, pair.guest_port);
}

#[test]
fn port_pair_each_error() {
    assert_eq!("80".parse::<PortPair>().unwrap_err(), "Too many ':' separators");
    assert_eq!("65536:80".parse::<PortPair>().unwrap_err(), "Invalid host port");
    assert_eq!("80:".parse::<PortPair>().unwrap_err(), "Invalid guest port");
}

#[test]
fn path_pair_each_error() {
    assert_eq!("/tmp".parse::<PathPair>().unwrap_err(), "Too many ':' separators");
    assert_eq!(
        "/definitely/not/here/krunvm:/guest".parse::<PathPair>().unwrap_err(),
        "Invalid volume, host_path does not exists"
    );
    assert_eq!(
        "/tmp:guest".parse::<PathPair>().unwrap_err(),
        "Invalid volume, guest_path is not an absolute path"
    );
    assert_eq!(
        decide_path_pair("/nowhere:/guest", true).unwrap().host_path,
        "/nowhere"
    );
    assert_eq!(
        decide_path_pair("/nowhere:/guest", false).unwrap_err(),
        "Invalid volume, host_path does not exists"
    );
}

#[test]
fn guest_path_depth_agrees_with_std_components() {
    for g in [
        "/", "/a", "/a/", "/a/b", "//a", "/./a", "/a/.", "/..", "/a/..", "/.", "/a//", "/.a",
        "/...", "///", "/a/./", "/ /",
    ] {
        let expected = Path::new(g).components().count() == 2;
        let got = decide_path_pair(&format!("/tmp:{g}"), true).is_ok();
        assert_eq!(got, expected, "{g:?}");
    }
}

#[test]
fn pairs_later_entry_wins() {
    let ports = vec![
        "80:8080".parse::<PortPair>().unwrap(),
        "443:8443".parse::<PortPair>().unwrap(),
        "80:9090".parse::<PortPair>().unwrap(),
    ];
    let m = port_pairs_to_hash_map(ports);
    assert_eq!(m.len(), 2);
    assert_eq!(m.get("80").map(|s| s.as_str()), Some("9090"));
    assert_eq!(m.get("443").map(|s| s.as_str()), Some("8443"));
    assert!(m.get("22").is_none());

    let vols = vec![
        PathPair { host_path: "/a".to_string(), guest_path: "/x".to_string() },
        PathPair { host_path: "/a".to_string(), guest_path: "/y".to_string() },
    ];
    let m = path_pairs_to_hash_map(vols);
    assert_eq!(m.len(), 1);
    assert_eq!(m.get("/a").map(|s| s.as_str()), Some("/y"));
}

#[test]
fn trim_agrees_with_std() {
    for s in ["", "  ", " a b ", "\n/var/lib/x\n", "\u{3000}x\u{2028}", "x"] {
        assert_eq!(trim(s), s.trim(), "{s:?}");
    }
}

#[test]
fn whitespace_agrees_with_std() {
    for c in (0u32..=0x10FFFF).filter_map(char::from_u32) {
        assert_eq!(char_is_whitespace(c), c.is_whitespace(), "{c:?}");
    }
}

#[test]
fn split_agrees_with_std() {
    for s in ["", ":", "a", "a:b", "::", ":a:", "aa:bb:cc:dd:ee:ff", "é:ü"] {
        let chars: Vec<char> = s.chars().collect();
        let got: Vec<String> = krunvm::text::split_chars(&chars, ':')
            .into_iter()
            .map(|p| p.into_iter().collect())
            .collect();
        let want: Vec<String> = s.split(':').map(String::from).collect();
        assert_eq!(got, want, "{s:?}");
    }
}

#[test]
fn uppercase_mac_reads_like_lowercase() {
    let upper = parse_mac("02:AB:CD:EF:0A:FF").unwrap();
    assert_eq!(upper, [0x02, 0xab, 0xcd, 0xef, 0x0a, 0xff]);
    assert_eq!(upper, parse_mac("02:ab:cd:ef:0a:ff").unwrap());
}
