//! Server-side request forgery guard: which addresses and schemes are refused.
use vstd::prelude::*;
use crate::text::same_text;

verus! {

/// A resolved network address, as the four octets of an IPv4 address or the
/// eight 16-bit segments of an IPv6 address.
#[derive(Debug, Clone, Copy, PartialEq, Eq)]
pub enum IpAddress {
    V4([u8; 4]),
    V6([u16; 8]),
}

/// Why a request target was refused.
#[derive(Debug, Clone, PartialEq, Eq)]
pub enum SsrfError {
    /// The scheme is on the deny list.
    BlockedScheme(String),
    /// The address lies in private, loopback, link-local or other reserved space.
    BlockedIp(IpAddress),
    /// The host name could not be resolved.
    DnsError(String),
}

/// IPv4 addresses that must never be contacted: loopback (127/8), the
/// private ranges 10/8, 172.16/12 and 192.168/16, link-local 169.254/16,
/// multicast 224/4, the broadcast address, and the 0/8 block (which holds
/// the unspecified address).
pub open spec fn blocked_v4(o: Seq<u8>) -> bool {
    ||| o[0] == 127
    ||| o[0] == 10
    ||| (o[0] == 172 && 16 <= o[1] <= 31)
    ||| (o[0] == 192 && o[1] == 168)
    ||| (o[0] == 169 && o[1] == 254)
    ||| (224 <= o[0] <= 239)
    ||| (o[0] == 255 && o[1] == 255 && o[2] == 255 && o[3] == 255)
    ||| o[0] == 0
}

/// Whether the first seven segments of an IPv6 address are all zero.
pub open spec fn leading_zero_v6(s: Seq<u16>) -> bool {
    forall|i: int| 0 <= i < 7 ==> s[i] == 0
}

/// IPv6 addresses that must never be contacted: loopback `::1`, the
/// unspecified address `::`, multicast ff00::/8, unique-local fc00::/7 and
/// link-local fe80::/10.
pub open spec fn blocked_v6(s: Seq<u16>) -> bool {
    ||| (leading_zero_v6(s) && s[7] == 1)
    ||| (leading_zero_v6(s) && s[7] == 0)
    ||| 0xff00 <= s[0]
    ||| (0xfc00 <= s[0] <= 0xfdff)
    ||| (0xfe80 <= s[0] <= 0xfebf)
}

/// Whether an address is private, reserved or otherwise refused.
pub open spec fn blocked_ip(ip: IpAddress) -> bool {
    match ip {
        IpAddress::V4(o) => blocked_v4(o@),
        IpAddress::V6(s) => blocked_v6(s@),
    }
}

/// Schemes that are refused before any request is made.
pub open spec fn denied_scheme(s: Seq<char>) -> bool {
    ||| s == "file"@
    ||| s == "ftp"@
    ||| s == "data"@
    ||| s == "javascript"@
    ||| s == "chrome"@
    ||| s == "about"@
    ||| s == "blob"@
    ||| s == "ws"@
    ||| s == "wss"@
}

/// Whether `ip` lies in address space that must not be contacted.
pub fn is_private_or_reserved(ip: IpAddress) -> (r: bool)
    ensures
        r == blocked_ip(ip),
{
    match ip {
        IpAddress::V4(o) => {
            o[0] == 127 || o[0] == 10 || (o[0] == 172 && 16 <= o[1] && o[1] <= 31) || (o[0] == 192
                && o[1] == 168) || (o[0] == 169 && o[1] == 254) || (224 <= o[0] && o[0] <= 239) || (
            o[0] == 255 && o[1] == 255 && o[2] == 255 && o[3] == 255) || o[0] == 0
        },
        IpAddress::V6(s) => {
            let lead = s[0] == 0 && s[1] == 0 && s[2] == 0 && s[3] == 0 && s[4] == 0 && s[5] == 0
                && s[6] == 0;
            assert(lead == leading_zero_v6(s@));
            (lead && s[7] == 1) || (lead && s[7] == 0) || 0xff00 <= s[0] || (0xfc00 <= s[0] && s[0]
                <= 0xfdff) || (0xfe80 <= s[0] && s[0] <= 0xfebf)
        },
    }
}

/// Accepts a public address and refuses a blocked one with `BlockedIp`.
pub fn validate_ip(ip: IpAddress) -> (r: Result<(), SsrfError>)
    ensures
        r is Ok <==> !blocked_ip(ip),
        r is Err ==> r == Err::<(), SsrfError>(SsrfError::BlockedIp(ip)),
{
    if is_private_or_reserved(ip) {
        Err(SsrfError::BlockedIp(ip))
    } else {
        Ok(())
    }
}

/// Checks every address a host name resolved to; the first blocked one is
/// reported. An empty answer is a resolution failure.
pub fn validate_addresses(addrs: &Vec<IpAddress>) -> (r: Result<(), SsrfError>)
    ensures
        r is Ok <==> (addrs@.len() > 0 && forall|i: int|
            0 <= i < addrs@.len() ==> !blocked_ip(#[trigger] addrs@[i])),
        r matches Err(SsrfError::BlockedIp(ip)) ==> blocked_ip(ip) && addrs@.contains(ip),
        r matches Err(SsrfError::DnsError(_)) ==> addrs@.len() == 0,
        !(r matches Err(SsrfError::BlockedScheme(_))),
{
    if addrs.len() == 0 {
        return Err(SsrfError::DnsError(String::from_str("no addresses resolved")));
    }
    let mut i: usize = 0;
    while i < addrs.len()
        invariant
            i <= addrs@.len(),
            forall|k: int| 0 <= k < i ==> !blocked_ip(#[trigger] addrs@[k]),
        decreases addrs@.len() - i,
    {
        if is_private_or_reserved(addrs[i]) {
            return Err(SsrfError::BlockedIp(addrs[i]));
        }
        i = i + 1;
    }
    Ok(())
}

/// Whether `scheme` is one of the refused schemes.
pub fn is_denied_scheme(scheme: &str) -> (r: bool)
    ensures
        r == denied_scheme(scheme@),
{
    same_text(scheme, "file") || same_text(scheme, "ftp") || same_text(scheme, "data")
        || same_text(scheme, "javascript") || same_text(scheme, "chrome") || same_text(
        scheme,
        "about",
    ) || same_text(scheme, "blob") || same_text(scheme, "ws") || same_text(scheme, "wss")
}

/// Refuses a scheme on the deny list with `BlockedScheme`.
pub fn validate_scheme(scheme: &str) -> (r: Result<(), SsrfError>)
    ensures
        r is Ok <==> !denied_scheme(scheme@),
        r matches Err(SsrfError::BlockedScheme(s)) ==> s@ == scheme@,
        r is Err ==> r matches Err(SsrfError::BlockedScheme(_)),
{
    if is_denied_scheme(scheme) {
        Err(SsrfError::BlockedScheme(String::from_str(scheme)))
    } else {
        Ok(())
    }
}

} // verus!
