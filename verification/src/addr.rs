//! IPv4 addresses as they appear on the wire.

use crate::error::ParseError;
use crate::reader::take_bytes;
use vstd::prelude::*;

verus! {

/// An IPv4 address: its four octets, first octet first.
#[derive(Clone, Copy, Debug, PartialEq, Eq, Hash, Structural)]
pub struct Ipv4Address(pub u8, pub u8, pub u8, pub u8);

impl Ipv4Address {
    /// The address `a.b.c.d`.
    pub fn new(a: u8, b: u8, c: u8, d: u8) -> (r: Self)
        ensures
            r == Ipv4Address(a, b, c, d),
    {
        Ipv4Address(a, b, c, d)
    }

    /// The four octets, first octet first.
    pub fn octets(&self) -> (r: [u8; 4])
        ensures
            r@ == seq![self.0, self.1, self.2, self.3],
    {
        let r = [self.0, self.1, self.2, self.3];
        assert(r@ =~= seq![self.0, self.1, self.2, self.3]);
        r
    }
}

/// The address whose network-order encoding is the first four bytes of `s`.
pub open spec fn spec_addr_v4(s: Seq<u8>) -> Ipv4Address
    recommends
        s.len() >= 4,
{
    Ipv4Address(s[0], s[1], s[2], s[3])
}

/// Reads an IPv4 address: four bytes in network order.
pub fn parse_addr_v4<'a>(i: &'a [u8]) -> (r: Result<(&'a [u8], Ipv4Address), ParseError>)
    ensures
        match r {
            Ok((rest, addr)) => i@.len() >= 4 && rest@ == i@.skip(4) && addr == spec_addr_v4(i@),
            Err(e) => i@.len() < 4 && e == ParseError::Truncated,
        },
{
    let (rest, val) = match take_bytes(i, 4) {
        Ok(pair) => pair,
        Err(e) => return Err(e),
    };
    let addr = Ipv4Address::new(val[0], val[1], val[2], val[3]);
    Ok((rest, addr))
}

} // verus!
