use umi_cli::netcfg::Ipv4Address;
use umi_cli::serial::Serial;
use umi_cli::update::{check_minimum_version, VersionGateError};
use umi_cli::version::Version;

#[test]
fn version_register_roundtrip() {
    // Encoding then decoding hardware/firmware version registers is the
    // identity.
    let v = Version { major: 1, minor: 20, patch: 333 };
    assert_eq!(Version::decode(&v.encode()), v);
    let extremes = Version { major: 0, minor: 65_535, patch: 1 };
    assert_eq!(Version::decode(&extremes.encode()), extremes);
}

#[test]
fn version_decode_fixed_registers() {
    let v = Version::decode(&vec![2, 0, 15]);
    assert_eq!(v, Version { major: 2, minor: 0, patch: 15 });
}

#[test]
fn version_renders_with_prefix() {
    assert_eq!(Version { major: 1, minor: 2, patch: 3 }.to_text(), "v1.2.3");
    assert_eq!(Version { major: 0, minor: 0, patch: 0 }.to_text(), "v0.0.0");
    assert_eq!(
        Version { major: 65_535, minor: 10, patch: 100 }.to_text(),
        "v65535.10.100"
    );
}

#[test]
fn version_ordering() {
    let v1_2_3 = Version { major: 1, minor: 2, patch: 3 };
    assert!(v1_2_3.at_least(&Version { major: 1, minor: 2, patch: 3 }));
    assert!(v1_2_3.at_least(&Version { major: 0, minor: 9, patch: 9 }));
    assert!(v1_2_3.at_least(&Version { major: 1, minor: 1, patch: 9 }));
    assert!(!v1_2_3.at_least(&Version { major: 1, minor: 2, patch: 4 }));
    assert!(!v1_2_3.at_least(&Version { major: 2, minor: 0, patch: 0 }));
}

#[test]
fn version_parse_accepts_dotted_triples() {
    let v = Version { major: 1, minor: 2, patch: 0 };
    assert_eq!(Version::parse("1.2.0"), Some(v));
    assert_eq!(Version::parse("v1.2.0"), Some(v));
    assert_eq!(
        Version::parse("v65535.0.1"),
        Some(Version { major: 65_535, minor: 0, patch: 1 })
    );
    // Leading zeros read as the same value.
    assert_eq!(
        Version::parse("007.08.09"),
        Some(Version { major: 7, minor: 8, patch: 9 })
    );
}

#[test]
fn version_render_parse_roundtrip() {
    for v in [
        Version { major: 0, minor: 0, patch: 0 },
        Version { major: 1, minor: 2, patch: 3 },
        Version { major: 65_535, minor: 65_535, patch: 65_535 },
    ] {
        assert_eq!(Version::parse(&v.to_text()), Some(v));
    }
}

#[test]
fn version_parse_rejects_other_shapes() {
    for text in [
        "", "v", "1", "1.2", "1.2.", "1.2.3.4", "1..2", "a.b.c", " 1.2.3", "1.2.3 ", "x1.2.3",
        "1.2.3x", "65536.0.0", "0.0.99999",
    ] {
        assert_eq!(Version::parse(text), None, "accepted {:?}", text);
    }
}

#[test]
fn minimum_version_gate_from_text() {
    let current = Version { major: 1, minor: 2, patch: 0 };
    assert_eq!(check_minimum_version(&current, "1.0.0"), Ok(()));
    assert_eq!(check_minimum_version(&current, "v1.2.0"), Ok(()));
    assert_eq!(
        check_minimum_version(&current, "1.2.1"),
        Err(VersionGateError::Unmet {
            current,
            minimum: Version { major: 1, minor: 2, patch: 1 },
        })
    );
    assert_eq!(
        check_minimum_version(&current, "not-a-version"),
        Err(VersionGateError::Unreadable)
    );
}

#[test]
fn ipv4_register_roundtrip() {
    // Octet-per-register packing round-trips every address.
    let ip = Ipv4Address::new(192, 168, 1, 10);
    assert_eq!(Ipv4Address::decode(&ip.encode()), ip);
    let ip = Ipv4Address::new(0, 255, 0, 255);
    assert_eq!(Ipv4Address::decode(&ip.encode()), ip);
}

#[test]
fn ipv4_encode_one_octet_per_register() {
    let regs = Ipv4Address::new(10, 0, 0, 1).encode();
    assert_eq!(regs, vec![10, 0, 0, 1]);
}

#[test]
fn ipv4_decode_ignores_high_byte() {
    // The high byte of each register is unused by the device; decoding
    // takes the low byte only.
    let ip = Ipv4Address::decode(&vec![0x01C0, 0xFFA8, 0x0001, 0x000A]);
    assert_eq!(ip, Ipv4Address::new(0xC0, 0xA8, 1, 10));
}

#[test]
fn ipv4_renders_dotted() {
    assert_eq!(Ipv4Address::new(192, 168, 1, 10).to_text(), "192.168.1.10");
    assert_eq!(Ipv4Address::new(0, 0, 0, 0).to_text(), "0.0.0.0");
}

#[test]
fn serial_decode_fixed_registers() {
    // Year byte 0x34 (52), week byte 0x05, sequence 0x00AB.
    let s = Serial::decode(&vec![0x3405, 0x00AB]);
    assert_eq!(s, Serial { year: 52, week: 5, seq: 0x00AB });
    assert_eq!(s.to_text(), "5205-00AB");
}

#[test]
fn serial_renders_padded_hex() {
    assert_eq!(Serial { year: 7, week: 9, seq: 0xBEEF }.to_text(), "0709-BEEF");
    assert_eq!(Serial { year: 0, week: 0, seq: 0 }.to_text(), "0000-0000");
    // Year and week are plain bytes, not calendar-validated.
    assert_eq!(
        Serial { year: 255, week: 255, seq: 0xFFFF }.to_text(),
        "255255-FFFF"
    );
}
