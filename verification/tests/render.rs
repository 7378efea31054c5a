use tonik::model::{DhcpLease, DhcpLeaseV6, FirmwareDeviceStatus, GpsPositionStatus, Ipv6Prefix};
use tonik::text::{decimal_text, join, natural_text, or_empty};

#[test]
fn natural_text_writes_decimal_digits() {
    assert_eq!(natural_text(0), "0");
    assert_eq!(natural_text(7), "7");
    assert_eq!(natural_text(10), "10");
    assert_eq!(natural_text(1234567890), "1234567890");
    assert_eq!(natural_text(u64::MAX), "18446744073709551615");
}

#[test]
fn decimal_text_agrees_with_formatting() {
    assert_eq!(decimal_text(0), "0");
    assert_eq!(decimal_text(-1), "-1");
    assert_eq!(decimal_text(43200), "43200");
    assert_eq!(decimal_text(-9000), "-9000");
    assert_eq!(decimal_text(i64::MAX), "9223372036854775807");
    assert_eq!(decimal_text(i64::MIN), "-9223372036854775808");
    for n in [-1001i64, -100, -99, -10, -9, 9, 10, 99, 100, 1001, 1700000000] {
        assert_eq!(decimal_text(n), format!("{}", n));
    }
}

#[test]
fn join_puts_the_separator_between_parts() {
    let parts = vec!["fd00::1".to_string(), "fd00::2".to_string(), "fd00::3".to_string()];
    assert_eq!(join(&parts, ", "), "fd00::1, fd00::2, fd00::3");
    assert_eq!(join(&vec!["only".to_string()], ", "), "only");
    assert_eq!(join(&Vec::new(), ", "), "");
    assert_eq!(join(&vec!["".to_string(), "".to_string()], "-"), "-");
}

#[test]
fn or_empty_shows_a_missing_text_as_empty() {
    assert_eq!(or_empty(&Some("host".to_string())), "host");
    assert_eq!(or_empty(&None), "");
}

#[test]
fn firmware_status_as_text() {
    let status = FirmwareDeviceStatus {
        kernel_version: "5.10.199".to_string(),
        version: "RUTX_R_00.07.06".to_string(),
        build_date: "2024-01-02 03:04:05".to_string(),
    };
    assert_eq!(
        status.to_string(),
        "Kernel version: 5.10.199\nVersion: RUTX_R_00.07.06\nBuild date: 2024-01-02 03:04:05"
    );
}

#[test]
fn gps_position_as_text() {
    let position = GpsPositionStatus {
        accuracy: "0.9".to_string(),
        fix_status: "3".to_string(),
        altitude: "12.5".to_string(),
        timestamp: "1700000000".to_string(),
        satellites: "9".to_string(),
        longitude: "-0.1276".to_string(),
        latitude: "51.5072".to_string(),
        angle: "180".to_string(),
        utc_timestamp: "1700000001".to_string(),
    };
    assert_eq!(
        position.to_string(),
        "Accuracy: 0.9\nFix status: 3\nAltitude: 12.5\nTimestamp: 1700000000\nSatellites: 9\n\
         Longitude: -0.1276\nLatitude: 51.5072\nAngle: 180\nUTC timestamp: 1700000001"
    );
}

#[test]
fn dhcp_lease_as_text() {
    let lease = DhcpLease {
        expires: 43200,
        macaddr: "AA:BB:CC:DD:EE:FF".to_string(),
        ipaddr: "192.168.7.20".to_string(),
        hostname: Some("laptop".to_string()),
    };
    assert_eq!(
        lease.to_string(),
        "MAC address: AA:BB:CC:DD:EE:FF\nIP address: 192.168.7.20\nHostname: laptop\nExpires: 43200\n"
    );
}

#[test]
fn dhcp_lease_without_hostname_as_text() {
    let lease = DhcpLease {
        expires: -5,
        macaddr: "AA:BB".to_string(),
        ipaddr: "10.0.0.2".to_string(),
        hostname: None,
    };
    assert_eq!(
        lease.to_string(),
        "MAC address: AA:BB\nIP address: 10.0.0.2\nHostname: \nExpires: -5\n"
    );
}

#[test]
fn ipv6_prefix_as_text() {
    let prefix = Ipv6Prefix { address: "fd00:1::".to_string(), prefix_length: 64 };
    assert_eq!(prefix.to_string(), "fd00:1::/64");
}

#[test]
fn dhcp_lease_v6_as_text() {
    let lease = DhcpLeaseV6 {
        duid: "0001000123456789".to_string(),
        expires: 600,
        hostname: Some("phone".to_string()),
        interface: "br-lan".to_string(),
        ipv6addr: vec!["fd00::10".to_string(), "fd00::11".to_string()],
        ipv6prefix: Some(vec![Ipv6Prefix { address: "fd00:2::".to_string(), prefix_length: 60 }]),
    };
    assert_eq!(
        lease.to_string(),
        "DUID: 0001000123456789\nExpires: 600\nHostname: phone\nInterface: br-lan\n\
         IP address: fd00::10, fd00::11\n"
    );
}

#[test]
fn dhcp_lease_v6_without_hostname_or_address_as_text() {
    let lease = DhcpLeaseV6 {
        duid: "00".to_string(),
        expires: 0,
        hostname: None,
        interface: "lan".to_string(),
        ipv6addr: Vec::new(),
        ipv6prefix: None,
    };
    assert_eq!(
        lease.to_string(),
        "DUID: 00\nExpires: 0\nHostname: \nInterface: lan\nIP address: \n"
    );
}
