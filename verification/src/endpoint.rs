//! Network destinations.

use vstd::prelude::*;

verus! {

/// An IPv4 destination: an address and a UDP port.
///
/// The address is held as the 32-bit number whose most significant byte is the
/// first octet, so `127.0.0.1` is `0x7F00_0001`. Two endpoints are the same
/// destination exactly when both fields agree.
#[derive(Clone, Copy, Debug, PartialEq, Eq, Structural)]
pub struct Endpoint {
    pub ip: u32,
    pub port: u16,
}

/// The address that the four octets `a.b.c.d` stand for.
pub open spec fn address_of_octets(a: u8, b: u8, c: u8, d: u8) -> int {
    a as int * 16777216 + b as int * 65536 + c as int * 256 + d as int
}

impl Endpoint {
    pub fn new(ip: u32, port: u16) -> (e: Endpoint)
        ensures
            e == (Endpoint { ip, port }),
    {
        Endpoint { ip, port }
    }

    /// The endpoint at the dotted-quad address `a.b.c.d`.
    pub fn from_octets(a: u8, b: u8, c: u8, d: u8, port: u16) -> (e: Endpoint)
        ensures
            e.ip as int == address_of_octets(a, b, c, d),
            e.port == port,
    {
        let ip: u32 = (a as u32) * 16777216 + (b as u32) * 65536 + (c as u32) * 256 + (d as u32);
        Endpoint { ip, port }
    }

    /// The four octets of the address, first octet first.
    pub fn octets(&self) -> (o: (u8, u8, u8, u8))
        ensures
            address_of_octets(o.0, o.1, o.2, o.3) == self.ip as int,
    {
        let a: u8 = (self.ip / 16777216) as u8;
        let b: u8 = ((self.ip / 65536) % 256) as u8;
        let c: u8 = ((self.ip / 256) % 256) as u8;
        let d: u8 = (self.ip % 256) as u8;
        (a, b, c, d)
    }
}

/// An address has one spelling in octets: equal addresses have equal octets.
pub proof fn lemma_octets_unique(a: u8, b: u8, c: u8, d: u8, e: u8, f: u8, g: u8, h: u8)
    requires
        address_of_octets(a, b, c, d) == address_of_octets(e, f, g, h),
    ensures
        a == e && b == f && c == g && d == h,
{
}

} // verus!
