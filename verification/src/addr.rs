//! Link-layer and network-layer addresses as plain octets.

use vstd::prelude::*;

verus! {

/// A 48-bit Ethernet hardware address, most significant octet first.
#[derive(Clone, Copy, Debug, PartialEq, Eq, Structural, Hash)]
pub struct MacAddr(pub u8, pub u8, pub u8, pub u8, pub u8, pub u8);

/// An IPv4 address, in network order.
#[derive(Clone, Copy, Debug, PartialEq, Eq, Structural, Hash)]
pub struct Ipv4Addr(pub u8, pub u8, pub u8, pub u8);

/// The address that `pnet` reads from a text such as `aa:bb:cc:00:11:22`, or
/// `None` where it takes the text for no address.
pub uninterp spec fn mac_addr_text(text: Seq<char>) -> Option<MacAddr>;

/// `FromStr::from_str` of `pnet::util::MacAddr`: the parser's answer depends
/// on the text alone. Its error, whichever of its kinds, becomes `None`.
#[verifier::external_body]
fn mac_addr_from_str(text: &str) -> (mac: Option<MacAddr>)
    ensures
        mac == mac_addr_text(text@),
{
    match text.parse::<pnet::util::MacAddr>() {
        Ok(mac) => Some(MacAddr(mac.0, mac.1, mac.2, mac.3, mac.4, mac.5)),
        Err(_) => None,
    }
}

impl MacAddr {
    /// Reads a hardware address from its colon-separated hexadecimal text.
    pub fn parse(text: &str) -> (mac: Option<MacAddr>)
        ensures
            mac == mac_addr_text(text@),
    {
        mac_addr_from_str(text)
    }

    /// The six octets as they stand on the wire.
    pub open spec fn octets(self) -> Seq<u8> {
        seq![self.0, self.1, self.2, self.3, self.4, self.5]
    }

    /// The address that six consecutive wire octets spell.
    pub open spec fn from_octets(bytes: Seq<u8>) -> MacAddr
        recommends
            bytes.len() == 6,
    {
        MacAddr(bytes[0], bytes[1], bytes[2], bytes[3], bytes[4], bytes[5])
    }

    pub fn new(a: u8, b: u8, c: u8, d: u8, e: u8, f: u8) -> (mac: MacAddr)
        ensures
            mac == MacAddr(a, b, c, d, e, f),
    {
        MacAddr(a, b, c, d, e, f)
    }
}

impl Ipv4Addr {
    /// The four octets as they stand on the wire.
    pub open spec fn octets(self) -> Seq<u8> {
        seq![self.0, self.1, self.2, self.3]
    }

    /// The address that four consecutive wire octets spell.
    pub open spec fn from_octets(bytes: Seq<u8>) -> Ipv4Addr
        recommends
            bytes.len() == 4,
    {
        Ipv4Addr(bytes[0], bytes[1], bytes[2], bytes[3])
    }

    pub fn new(a: u8, b: u8, c: u8, d: u8) -> (ip: Ipv4Addr)
        ensures
            ip == Ipv4Addr(a, b, c, d),
    {
        Ipv4Addr(a, b, c, d)
    }
}

} // verus!
