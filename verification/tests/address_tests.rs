use dns_renew::address::{
    address_list_contains, ip_to_string, parse_ip_literal, parse_ipv4, parse_ipv6, trim_ascii_ws,
    trim_quotes, IpAddress,
};

#[test]
fn parses_plain_v4() {
    assert_eq!(parse_ipv4("1.2.3.4"), Some(0x01020304));
    assert_eq!(parse_ipv4("0.0.0.0"), Some(0));
    assert_eq!(parse_ipv4("255.255.255.255"), Some(0xffffffff));
    assert_eq!(parse_ipv4("192.168.0.1"), Some(0xc0a80001));
}

#[test]
fn rejects_bad_v4() {
    assert_eq!(parse_ipv4("256.1.1.1"), None);
    assert_eq!(parse_ipv4("01.2.3.4"), None);
    assert_eq!(parse_ipv4("1.2.3"), None);
    assert_eq!(parse_ipv4("1.2.3.4.5"), None);
    assert_eq!(parse_ipv4("1.2.3.4 "), None);
    assert_eq!(parse_ipv4(""), None);
    assert_eq!(parse_ipv4("1..2.3"), None);
    assert_eq!(parse_ipv4("1234.1.1.1"), None);
}

#[test]
fn formats_v4() {
    assert_eq!(ip_to_string(&IpAddress::V4(0x01020304)), "1.2.3.4");
    assert_eq!(ip_to_string(&IpAddress::V4(0)), "0.0.0.0");
    assert_eq!(ip_to_string(&IpAddress::V4(0xffffffff)), "255.255.255.255");
    assert_eq!(ip_to_string(&IpAddress::V4(0x7f000001)), "127.0.0.1");
}

#[test]
fn parses_full_v6() {
    assert_eq!(
        parse_ipv6("1:2:3:4:5:6:7:8"),
        Some(0x0001_0002_0003_0004_0005_0006_0007_0008)
    );
    assert_eq!(
        parse_ipv6("2001:0db8:0000:0000:0000:ff00:0042:8329"),
        Some(0x2001_0db8_0000_0000_0000_ff00_0042_8329)
    );
}

#[test]
fn parses_compressed_v6() {
    assert_eq!(parse_ipv6("::"), Some(0));
    assert_eq!(parse_ipv6("::1"), Some(1));
    assert_eq!(parse_ipv6("1::"), Some(0x0001_0000_0000_0000_0000_0000_0000_0000));
    assert_eq!(
        parse_ipv6("2001:db8::ff00:42:8329"),
        Some(0x2001_0db8_0000_0000_0000_ff00_0042_8329)
    );
    assert_eq!(parse_ipv6("1:2:3:4:5:6:7::"), Some(0x0001_0002_0003_0004_0005_0006_0007_0000));
    assert_eq!(parse_ipv6("::1:2:3:4:5:6:7"), Some(0x0000_0001_0002_0003_0004_0005_0006_0007));
}

#[test]
fn parses_v6_with_embedded_v4() {
    assert_eq!(parse_ipv6("::ffff:1.2.3.4"), Some(0x0000_0000_0000_0000_0000_ffff_0102_0304));
    assert_eq!(
        parse_ipv6("1:2:3:4:5:6:1.2.3.4"),
        Some(0x0001_0002_0003_0004_0005_0006_0102_0304)
    );
}

#[test]
fn rejects_bad_v6() {
    assert_eq!(parse_ipv6("1::2::3"), None);
    assert_eq!(parse_ipv6("1:2:3:4:5:6:7:8:9"), None);
    assert_eq!(parse_ipv6("1:2:3:4:5:6:7"), None);
    assert_eq!(parse_ipv6(":"), None);
    assert_eq!(parse_ipv6(":1:2:3:4:5:6:7"), None);
    assert_eq!(parse_ipv6("12345::"), None);
    assert_eq!(parse_ipv6("1:2:3:4:5:6:7:8::"), None);
    assert_eq!(parse_ipv6("1.2.3.4"), None);
    assert_eq!(parse_ipv6("g::1"), None);
    assert_eq!(parse_ipv6("1::2:"), None);
}

#[test]
fn formats_v6_with_compression() {
    assert_eq!(ip_to_string(&IpAddress::V6(0)), "::");
    assert_eq!(ip_to_string(&IpAddress::V6(1)), "::1");
    assert_eq!(
        ip_to_string(&IpAddress::V6(0x0001_0000_0000_0000_0000_0000_0000_0000)),
        "1::"
    );
    assert_eq!(
        ip_to_string(&IpAddress::V6(0x2001_0db8_0000_0000_0000_ff00_0042_8329)),
        "2001:db8::ff00:42:8329"
    );
    assert_eq!(
        ip_to_string(&IpAddress::V6(0x0001_0002_0003_0004_0005_0006_0007_0008)),
        "1:2:3:4:5:6:7:8"
    );
}

#[test]
fn v6_compression_takes_leftmost_longest_run() {
    // groups [1,0,0,1,0,0,0,1]: the later run of three wins over the
    // earlier run of two
    assert_eq!(
        ip_to_string(&IpAddress::V6(0x0001_0000_0000_0001_0000_0000_0000_0001)),
        "1:0:0:1::1"
    );
    // groups [1,0,0,1,0,0,1,1]: two runs of two; the leftmost wins
    assert_eq!(
        ip_to_string(&IpAddress::V6(0x0001_0000_0000_0001_0000_0000_0001_0001)),
        "1::1:0:0:1:1"
    );
    // a single zero group is never shortened
    assert_eq!(
        ip_to_string(&IpAddress::V6(0x0001_0000_0002_0003_0004_0005_0006_0007)),
        "1:0:2:3:4:5:6:7"
    );
}

#[test]
fn v6_round_trips_through_text() {
    let samples: Vec<u128> = vec![
        0,
        1,
        0x2001_0db8_0000_0000_0000_ff00_0042_8329,
        0x0001_0000_0000_0001_0000_0000_0000_0001,
        u128::MAX,
        0x0000_0000_0000_0000_0000_ffff_0102_0304,
    ];
    for v in samples {
        let text = ip_to_string(&IpAddress::V6(v));
        assert_eq!(parse_ip_literal(&text), Some(IpAddress::V6(v)));
    }
}

#[test]
fn v4_round_trips_through_text() {
    for v in [0u32, 1, 0x01020304, 0xffffffff, 0x7f000001] {
        let text = ip_to_string(&IpAddress::V4(v));
        assert_eq!(parse_ip_literal(&text), Some(IpAddress::V4(v)));
    }
}

#[test]
fn literal_parse_prefers_v4_then_v6() {
    assert_eq!(parse_ip_literal("1.2.3.4"), Some(IpAddress::V4(0x01020304)));
    assert_eq!(parse_ip_literal("::1"), Some(IpAddress::V6(1)));
    assert_eq!(parse_ip_literal("no address"), None);
}

#[test]
fn families_are_told_apart() {
    let v4 = IpAddress::V4(1);
    let v6 = IpAddress::V6(1);
    assert!(v4.is_v4() && !v4.is_v6());
    assert!(v6.is_v6() && !v6.is_v4());
    assert!(v4.matches_family(false) && !v4.matches_family(true));
    assert!(v6.matches_family(true) && !v6.matches_family(false));
}

#[test]
fn trims_whitespace_and_quotes() {
    assert_eq!(trim_ascii_ws("  1.2.3.4\n"), "1.2.3.4");
    assert_eq!(trim_ascii_ws("\t\r\n "), "");
    assert_eq!(trim_ascii_ws("x"), "x");
    assert_eq!(trim_quotes("\"1.2.3.4\""), "1.2.3.4");
    assert_eq!(trim_quotes("\"\"a\"\""), "a");
    assert_eq!(trim_quotes("\"\"\"\""), "");
    assert_eq!(trim_quotes("plain"), "plain");
}

#[test]
fn membership_in_published_set() {
    let ips = vec![IpAddress::V4(0x01020304), IpAddress::V6(1)];
    assert!(address_list_contains(&ips, &IpAddress::V4(0x01020304)));
    assert!(address_list_contains(&ips, &IpAddress::V6(1)));
    assert!(!address_list_contains(&ips, &IpAddress::V4(0x01020305)));
    assert!(!address_list_contains(&vec![], &IpAddress::V4(1)));
}

#[test]
fn uncompressed_zero_groups_parse() {
    assert_eq!(parse_ipv6("0:0:0:0:0:0:0:1"), Some(1));
    assert_eq!(parse_ipv6("0000:0000:0000:0000:0000:0000:0000:0001"), Some(1));
}
