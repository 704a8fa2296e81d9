use fracture_pt::hostname::{free_scan_domain, is_valid_domain, validate_hostname, HostnameError};
use fracture_pt::ip::{address_text, check_ip_address, IpAddress, IpError};
use fracture_pt::text::normalize;

#[test]
fn hostname_is_trimmed_and_lowercased_before_checking() {
    assert_eq!(validate_hostname("  Example.COM "), Ok(()));
    let n: String = normalize("  Example.COM ").into_iter().collect();
    assert_eq!(n, "example.com");
}

#[test]
fn hostname_length_errors() {
    assert_eq!(validate_hostname("   "), Err(HostnameError::InvalidLength));
    let long = format!("{}.com", "a".repeat(250));
    assert_eq!(validate_hostname(&long), Err(HostnameError::InvalidLength));
}

#[test]
fn hostname_character_and_label_errors() {
    assert_eq!(validate_hostname("exa_mple.com"), Err(HostnameError::InvalidCharacters));
    assert_eq!(validate_hostname("example..com"), Err(HostnameError::InvalidLabelLength));
    let label = "b".repeat(64);
    assert_eq!(validate_hostname(&format!("{label}.com")), Err(HostnameError::InvalidLabelLength));
    assert_eq!(validate_hostname(&format!("{}.com", "b".repeat(63))), Ok(()));
}

#[test]
fn hostname_reserved_names_and_suffixes() {
    assert_eq!(validate_hostname("LOCALHOST"), Err(HostnameError::Reserved));
    assert_eq!(validate_hostname("broadcasthost"), Err(HostnameError::Reserved));
    assert_eq!(validate_hostname("printer.local"), Err(HostnameError::ReservedSuffix));
    assert_eq!(validate_hostname("hidden.onion"), Err(HostnameError::ReservedSuffix));
    assert_eq!(HostnameError::ReservedSuffix.message(), "Reserved hostname suffix");
    assert_eq!(HostnameError::InvalidCharacters.message(), "Hostname contains invalid characters");
}

#[test]
fn hostname_labels_begin_and_end_with_letter_or_digit() {
    assert_eq!(validate_hostname("-foo.com"), Err(HostnameError::InvalidLabelEdge));
    assert_eq!(validate_hostname("bar-.com"), Err(HostnameError::InvalidLabelEdge));
    assert_eq!(validate_hostname("example.-com"), Err(HostnameError::InvalidLabelEdge));
    assert_eq!(validate_hostname("a.b-"), Err(HostnameError::InvalidLabelEdge));
    assert_eq!(validate_hostname("-"), Err(HostnameError::InvalidLabelEdge));
    assert_eq!(validate_hostname("my-host.ex-ample.com"), Ok(()));
    assert_eq!(validate_hostname("a.b"), Ok(()));
    assert_eq!(validate_hostname("-.local"), Err(HostnameError::InvalidLabelEdge));
    assert_eq!(
        HostnameError::InvalidLabelEdge.message(),
        "Hostname labels must begin and end with a letter or digit"
    );
}

#[test]
fn free_scan_domains() {
    assert!(is_valid_domain("example.com"));
    assert!(is_valid_domain("sub-1.example.co.uk"));
    assert!(!is_valid_domain("example"));
    assert!(!is_valid_domain("-bad.example.com"));
    assert!(!is_valid_domain("bad-.example.com"));
    assert!(!is_valid_domain("my.localhost"));
    assert!(!is_valid_domain("intranet.internal"));
    assert!(!is_valid_domain(""));
    assert_eq!(free_scan_domain("  Example.COM\n"), Some("example.com".to_string()));
    assert_eq!(free_scan_domain("nope"), None);
}

#[test]
fn lowercase_follows_unicode_rules() {
    let n: String = normalize(" ÄBC ").into_iter().collect();
    assert_eq!(n, "äbc");
}

#[test]
fn ipv4_reserved_ranges() {
    let v4 = |a, b, c, d| Some(IpAddress::V4(a, b, c, d));
    assert_eq!(check_ip_address(v4(8, 8, 8, 8)), Ok(()));
    assert_eq!(check_ip_address(v4(127, 0, 0, 1)), Err(IpError::ReservedOrPrivate));
    assert_eq!(check_ip_address(v4(10, 1, 2, 3)), Err(IpError::ReservedOrPrivate));
    assert_eq!(check_ip_address(v4(172, 16, 0, 1)), Err(IpError::ReservedOrPrivate));
    assert_eq!(check_ip_address(v4(172, 32, 0, 1)), Ok(()));
    assert_eq!(check_ip_address(v4(192, 168, 1, 1)), Err(IpError::ReservedOrPrivate));
    assert_eq!(check_ip_address(v4(169, 254, 169, 254)), Err(IpError::ReservedOrPrivate));
    assert_eq!(check_ip_address(v4(255, 255, 255, 255)), Err(IpError::ReservedOrPrivate));
    assert_eq!(check_ip_address(v4(0, 1, 2, 3)), Err(IpError::ReservedOrPrivate));
    assert_eq!(check_ip_address(v4(100, 64, 0, 1)), Err(IpError::CarrierGradeNat));
    assert_eq!(check_ip_address(v4(100, 127, 255, 255)), Err(IpError::CarrierGradeNat));
    assert_eq!(check_ip_address(v4(100, 128, 0, 1)), Ok(()));
    assert_eq!(IpError::CarrierGradeNat.message(), "IP address is in a reserved range (CGNAT)");
}

#[test]
fn ipv4_mapped_addresses_follow_ipv4_rules() {
    let mapped = |s6, s7| Some(IpAddress::V6(0, 0, 0, 0, 0, 0xffff, s6, s7));
    assert_eq!(check_ip_address(mapped(0x7f00, 0x0001)), Err(IpError::ReservedOrPrivate));
    assert_eq!(check_ip_address(mapped(0x0a00, 0x0001)), Err(IpError::ReservedOrPrivate));
    assert_eq!(check_ip_address(mapped(0xc0a8, 0x0101)), Err(IpError::ReservedOrPrivate));
    assert_eq!(check_ip_address(mapped(0xa9fe, 0xa9fe)), Err(IpError::ReservedOrPrivate));
    assert_eq!(check_ip_address(mapped(0x0000, 0x0000)), Err(IpError::ReservedOrPrivate));
    assert_eq!(check_ip_address(mapped(0x6440, 0x0001)), Err(IpError::CarrierGradeNat));
    assert_eq!(check_ip_address(mapped(0x0808, 0x0808)), Ok(()));
    assert_eq!(check_ip_address(Some(IpAddress::V6(0, 0, 0, 0, 0, 0xfffe, 0x7f00, 1))), Ok(()));
}

#[test]
fn ipv6_reserved_ranges() {
    let v6 = |s0| Some(IpAddress::V6(s0, 0, 0, 0, 0, 0, 0, 1));
    assert_eq!(check_ip_address(Some(IpAddress::V6(0, 0, 0, 0, 0, 0, 0, 1))), Err(IpError::Reserved));
    assert_eq!(check_ip_address(Some(IpAddress::V6(0, 0, 0, 0, 0, 0, 0, 0))), Err(IpError::Reserved));
    assert_eq!(check_ip_address(v6(0xfd12)), Err(IpError::UniqueLocal));
    assert_eq!(check_ip_address(v6(0xfe80)), Err(IpError::LinkLocal));
    assert_eq!(check_ip_address(v6(0xfebf)), Err(IpError::LinkLocal));
    assert_eq!(check_ip_address(v6(0x2001)), Ok(()));
    assert_eq!(check_ip_address(None), Err(IpError::InvalidFormat));
    assert_eq!(IpError::InvalidFormat.message(), "Invalid IP address format");
    assert_eq!(IpError::UniqueLocal.message(), "IP address is in a private range (ULA)");
}

#[test]
fn address_text_is_trimmed() {
    assert_eq!(address_text("  1.2.3.4\t"), "1.2.3.4");
}
