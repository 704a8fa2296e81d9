//! Validation of the IP addresses that users ask to be scanned: private,
//! loopback, link-local and other reserved ranges are refused.
use vstd::prelude::*;

use crate::text::{chars_of, string_of, trim_chars, trimmed};

verus! {

/// An IP address: four octets, or eight 16-bit segments.
#[derive(Clone, Copy, Debug, PartialEq, Eq, Structural)]
pub enum IpAddress {
    V4(u8, u8, u8, u8),
    V6(u16, u16, u16, u16, u16, u16, u16, u16),
}

/// Why an address was refused.
#[derive(Clone, Copy, Debug, PartialEq, Eq, Structural)]
pub enum IpError {
    /// The text is not an IPv4 or IPv6 address.
    InvalidFormat,
    /// An IPv4 loopback, private, link-local, broadcast, unspecified,
    /// `0.0.0.0/8` or cloud-metadata address, written as IPv4 or mapped
    /// into IPv6.
    ReservedOrPrivate,
    /// IPv4 carrier-grade NAT space, `100.64.0.0/10`, written as IPv4 or
    /// mapped into IPv6.
    CarrierGradeNat,
    /// The IPv6 loopback or unspecified address.
    Reserved,
    /// IPv6 unique local space, `fc00::/7`.
    UniqueLocal,
    /// IPv6 link-local space, `fe80::/10`.
    LinkLocal,
}

/// The text shown for each refusal.
pub open spec fn ip_error_text(e: IpError) -> Seq<char> {
    match e {
        IpError::InvalidFormat => "Invalid IP address format"@,
        IpError::ReservedOrPrivate => "IP address is in a reserved or private range"@,
        IpError::CarrierGradeNat => "IP address is in a reserved range (CGNAT)"@,
        IpError::Reserved => "IP address is in a reserved range"@,
        IpError::UniqueLocal => "IP address is in a private range (ULA)"@,
        IpError::LinkLocal => "IP address is in a link-local range"@,
    }
}

impl IpError {
    /// The message the user sees.
    pub fn message(&self) -> (r: &'static str)
        ensures
            r@ == ip_error_text(*self),
    {
        match self {
            IpError::InvalidFormat => "Invalid IP address format",
            IpError::ReservedOrPrivate => "IP address is in a reserved or private range",
            IpError::CarrierGradeNat => "IP address is in a reserved range (CGNAT)",
            IpError::Reserved => "IP address is in a reserved range",
            IpError::UniqueLocal => "IP address is in a private range (ULA)",
            IpError::LinkLocal => "IP address is in a link-local range",
        }
    }
}

/// IPv4 addresses that may not be scanned: loopback (`127.0.0.0/8`),
/// private (`10.0.0.0/8`, `172.16.0.0/12`, `192.168.0.0/16`), link-local
/// (`169.254.0.0/16`, which holds the cloud metadata address), broadcast,
/// and `0.0.0.0/8` (which holds the unspecified address).
pub open spec fn v4_reserved_or_private(a: u8, b: u8, c: u8, d: u8) -> bool {
    ||| a == 127
    ||| a == 10
    ||| a == 172 && 16 <= b < 32
    ||| a == 192 && b == 168
    ||| a == 169 && b == 254
    ||| a == 255 && b == 255 && c == 255 && d == 255
    ||| a == 0
}

/// Carrier-grade NAT space, `100.64.0.0/10`.
pub open spec fn v4_cgnat(a: u8, b: u8) -> bool {
    a == 100 && 64 <= b < 128
}

/// The verdict of the IPv4 rules on an address `a.b.c.d`.
pub open spec fn v4_verdict(a: u8, b: u8, c: u8, d: u8) -> Result<(), IpError> {
    if v4_reserved_or_private(a, b, c, d) {
        Err(IpError::ReservedOrPrivate)
    } else if v4_cgnat(a, b) {
        Err(IpError::CarrierGradeNat)
    } else {
        Ok(())
    }
}

/// An IPv4-mapped IPv6 address, `::ffff:a.b.c.d`.
pub open spec fn is_v4_mapped(s0: u16, s1: u16, s2: u16, s3: u16, s4: u16, s5: u16) -> bool {
    s0 == 0 && s1 == 0 && s2 == 0 && s3 == 0 && s4 == 0 && s5 == 0xffff
}

/// The verdict on an address, in the order the checks run. An IPv4-mapped
/// IPv6 address is held to the rules of the IPv4 address it carries.
pub open spec fn ip_verdict(addr: Option<IpAddress>) -> Result<(), IpError> {
    match addr {
        None => Err(IpError::InvalidFormat),
        Some(IpAddress::V4(a, b, c, d)) => v4_verdict(a, b, c, d),
        Some(IpAddress::V6(s0, s1, s2, s3, s4, s5, s6, s7)) => if s0 == 0 && s1 == 0 && s2 == 0
            && s3 == 0 && s4 == 0 && s5 == 0 && s6 == 0 && (s7 == 0 || s7 == 1) {
            Err(IpError::Reserved)
        } else if is_v4_mapped(s0, s1, s2, s3, s4, s5) {
            v4_verdict((s6 / 256) as u8, (s6 % 256) as u8, (s7 / 256) as u8, (s7 % 256) as u8)
        } else if 0xfc00 <= s0 <= 0xfdff {
            Err(IpError::UniqueLocal)
        } else if 0xfe80 <= s0 <= 0xfebf {
            Err(IpError::LinkLocal)
        } else {
            Ok(())
        },
    }
}

/// The text of an address field as it is parsed: without surrounding white
/// space.
pub fn address_text(raw: &str) -> (r: String)
    ensures
        r@ == trimmed(raw@),
{
    let v = chars_of(raw);
    let t = trim_chars(&v);
    string_of(&t)
}

/// The private blocks of RFC 1918 (`10.0.0.0/8`, `172.16.0.0/12`,
/// `192.168.0.0/16`), loopback (`127.0.0.0/8`), link-local
/// (`169.254.0.0/16`) and `0.0.0.0/8` are refused, written as IPv4 or mapped
/// into IPv6; carrier-grade NAT (`100.64.0.0/10`) is refused as such.
pub proof fn lemma_private_ranges_refused(a: u8, b: u8, c: u8, d: u8)
    ensures
        (a == 10 || (a == 172 && 16 <= b <= 31) || (a == 192 && b == 168) || a == 127 || (a == 169
            && b == 254) || a == 0) ==> ip_verdict(Some(IpAddress::V4(a, b, c, d))) == Err::<
            (),
            IpError,
        >(IpError::ReservedOrPrivate) && ip_verdict(
            Some(
                IpAddress::V6(
                    0,
                    0,
                    0,
                    0,
                    0,
                    0xffff,
                    ((a as int) * 256 + (b as int)) as u16,
                    ((c as int) * 256 + (d as int)) as u16,
                ),
            ),
        ) == Err::<(), IpError>(IpError::ReservedOrPrivate),
        (a == 100 && 64 <= b <= 127) ==> ip_verdict(Some(IpAddress::V4(a, b, c, d))) == Err::<
            (),
            IpError,
        >(IpError::CarrierGradeNat),
{
    let s6: u16 = ((a as int) * 256 + (b as int)) as u16;
    let s7: u16 = ((c as int) * 256 + (d as int)) as u16;
    assert((s6 / 256) as u8 == a && (s6 % 256) as u8 == b);
    assert((s7 / 256) as u8 == c && (s7 % 256) as u8 == d);
}

/// The IPv6 loopback and unspecified addresses are refused as reserved,
/// unique local addresses (`fc00::/7`) as private, and link-local addresses
/// (`fe80::/10`) as link-local.
pub proof fn lemma_v6_ranges_refused(
    s0: u16,
    s1: u16,
    s2: u16,
    s3: u16,
    s4: u16,
    s5: u16,
    s6: u16,
    s7: u16,
)
    ensures
        ip_verdict(Some(IpAddress::V6(0, 0, 0, 0, 0, 0, 0, 1))) == Err::<(), IpError>(
            IpError::Reserved,
        ),
        ip_verdict(Some(IpAddress::V6(0, 0, 0, 0, 0, 0, 0, 0))) == Err::<(), IpError>(
            IpError::Reserved,
        ),
        0xfc00 <= s0 <= 0xfdff ==> ip_verdict(Some(IpAddress::V6(s0, s1, s2, s3, s4, s5, s6, s7)))
            == Err::<(), IpError>(IpError::UniqueLocal),
        0xfe80 <= s0 <= 0xfebf ==> ip_verdict(Some(IpAddress::V6(s0, s1, s2, s3, s4, s5, s6, s7)))
            == Err::<(), IpError>(IpError::LinkLocal),
{
}

/// Holds an IPv4 address `a.b.c.d` to the IPv4 rules.
fn check_v4(a: u8, b: u8, c: u8, d: u8) -> (r: Result<(), IpError>)
    ensures
        r == v4_verdict(a, b, c, d),
        a == 10 || (a == 172 && 16 <= b <= 31) || (a == 192 && b == 168) || a == 127 ==> r == Err::<
            (),
            IpError,
        >(IpError::ReservedOrPrivate),
{
    let loopback = a == 127;
    let private = a == 10 || (a == 172 && (b & 0xf0) == 16) || (a == 192 && b == 168);
    let link_local = a == 169 && b == 254;
    let broadcast = a == 255 && b == 255 && c == 255 && d == 255;
    let unspecified = a == 0 && b == 0 && c == 0 && d == 0;
    let metadata = a == 169 && b == 254 && c == 169 && d == 254;
    assert((b & 0xf0) == 16 <==> 16 <= b < 32) by (bit_vector);
    assert((b & 0xc0) == 64 <==> 64 <= b < 128) by (bit_vector);
    if loopback || private || link_local || broadcast || unspecified || a == 0 || metadata {
        return Err(IpError::ReservedOrPrivate);
    }
    if a == 100 && (b & 0xc0) == 64 {
        return Err(IpError::CarrierGradeNat);
    }
    Ok(())
}

/// Checks an address, given what parsing its trimmed text gave (`None`
/// when it is not an address).
pub fn check_ip_address(addr: Option<IpAddress>) -> (r: Result<(), IpError>)
    ensures
        r == ip_verdict(addr),
{
    match addr {
        None => Err(IpError::InvalidFormat),
        Some(IpAddress::V4(a, b, c, d)) => check_v4(a, b, c, d),
        Some(IpAddress::V6(s0, s1, s2, s3, s4, s5, s6, s7)) => {
            let zero_prefix = s0 == 0 && s1 == 0 && s2 == 0 && s3 == 0 && s4 == 0 && s5 == 0 && s6
                == 0;
            let loopback = zero_prefix && s7 == 1;
            let unspecified = zero_prefix && s7 == 0;
            if loopback || unspecified {
                return Err(IpError::Reserved);
            }
            if s0 == 0 && s1 == 0 && s2 == 0 && s3 == 0 && s4 == 0 && s5 == 0xffff {
                return check_v4(
                    (s6 / 256) as u8,
                    (s6 % 256) as u8,
                    (s7 / 256) as u8,
                    (s7 % 256) as u8,
                );
            }
            assert((s0 & 0xfe00) == 0xfc00 <==> 0xfc00 <= s0 <= 0xfdff) by (bit_vector);
            assert((s0 & 0xffc0) == 0xfe80 <==> 0xfe80 <= s0 <= 0xfebf) by (bit_vector);
            if (s0 & 0xfe00) == 0xfc00 {
                return Err(IpError::UniqueLocal);
            }
            if (s0 & 0xffc0) == 0xfe80 {
                return Err(IpError::LinkLocal);
            }
            Ok(())
        },
    }
}

} // verus!
