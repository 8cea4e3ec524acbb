use esp_csi_cli::mac::{format_mac, parse_mac};

#[test]
fn parses_colon_and_dash_forms_in_any_case() {
    assert_eq!(parse_mac("aa:bb:cc:dd:ee:ff"), Some([0xaa, 0xbb, 0xcc, 0xdd, 0xee, 0xff]));
    assert_eq!(parse_mac("D0-CF-13-E2-90-E8"), Some([0xd0, 0xcf, 0x13, 0xe2, 0x90, 0xe8]));
    assert_eq!(parse_mac("00:11-22:33-44:55"), Some([0x00, 0x11, 0x22, 0x33, 0x44, 0x55]));
}

#[test]
fn a_group_needs_two_hex_digits() {
    assert_eq!(parse_mac("+a:bb:cc:dd:ee:ff"), None);
    assert_eq!(parse_mac("aa:bb:cc:dd:ee:+f"), None);
    assert_eq!(parse_mac("++:bb:cc:dd:ee:ff"), None);
}

#[test]
fn refuses_malformed_addresses() {
    assert_eq!(parse_mac(""), None);
    assert_eq!(parse_mac("aa:bb:cc:dd:ee"), None);
    assert_eq!(parse_mac("aa:bb:cc:dd:ee:ff:00"), None);
    assert_eq!(parse_mac("aa:bb:cc:dd:ee:ff:"), None);
    assert_eq!(parse_mac("aa:bb:cc:dd:ee:fg"), None);
    assert_eq!(parse_mac("aabb:cc:dd:ee:ff:0"), None);
    assert_eq!(parse_mac("a:bbb:cc:dd:ee:ff"), None);
    assert_eq!(parse_mac("aa.bb.cc.dd.ee.ff"), None);
    assert_eq!(parse_mac("aa:bb:cc:dd:ee:é"), None);
}

#[test]
fn formats_in_both_cases() {
    let m = [0xd0, 0xcf, 0x13, 0xe2, 0x90, 0x08];
    assert_eq!(format_mac(&m, true), "D0:CF:13:E2:90:08");
    assert_eq!(format_mac(&m, false), "d0:cf:13:e2:90:08");
}

#[test]
fn formatted_address_reads_back() {
    for m in [[0u8; 6], [0xff; 6], [1, 2, 3, 0xab, 0xcd, 0xef]] {
        assert_eq!(parse_mac(&format_mac(&m, true)), Some(m));
        assert_eq!(parse_mac(&format_mac(&m, false)), Some(m));
    }
}
