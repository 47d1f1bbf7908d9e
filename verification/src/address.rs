use vstd::prelude::*;

verus! {

/// An IP address to assign to a tunnel interface, held as a plain integer:
/// an IPv4 address as the 32-bit value of its four octets, an IPv6 address
/// as the 128-bit value of its sixteen octets (both in network order).
#[derive(Clone, Copy, Debug, PartialEq, Eq, Structural)]
pub enum IpAddress {
    /// An IPv4 address, as the numeric value of `a.b.c.d`.
    V4(u32),
    /// An IPv6 address, as the numeric value of its eight 16-bit groups.
    V6(u128),
}

impl IpAddress {
    /// Build an IPv4 address from its four dotted-quad octets.
    pub fn v4(a: u8, b: u8, c: u8, d: u8) -> (r: IpAddress)
        ensures
            r == IpAddress::V4(
                ((a as u32) << 24) | ((b as u32) << 16) | ((c as u32) << 8) | (d as u32),
            ),
    {
        IpAddress::V4(((a as u32) << 24) | ((b as u32) << 16) | ((c as u32) << 8) | (d as u32))
    }

    /// Build an IPv6 address from its eight colon-separated 16-bit groups.
    pub fn v6(g0: u16, g1: u16, g2: u16, g3: u16, g4: u16, g5: u16, g6: u16, g7: u16) -> (r:
        IpAddress)
        ensures
            r == IpAddress::V6(
                ((g0 as u128) << 112) | ((g1 as u128) << 96) | ((g2 as u128) << 80) | ((
                g3 as u128) << 64) | ((g4 as u128) << 48) | ((g5 as u128) << 32) | ((
                g6 as u128) << 16) | (g7 as u128),
            ),
    {
        IpAddress::V6(
            ((g0 as u128) << 112) | ((g1 as u128) << 96) | ((g2 as u128) << 80) | ((
            g3 as u128) << 64) | ((g4 as u128) << 48) | ((g5 as u128) << 32) | ((
            g6 as u128) << 16) | (g7 as u128),
        )
    }

    /// True of an IPv4 address, false of an IPv6 one.
    pub fn is_ipv4(&self) -> (r: bool)
        ensures
            r == (self is V4),
    {
        match self {
            IpAddress::V4(_) => true,
            IpAddress::V6(_) => false,
        }
    }
}

} // verus!
