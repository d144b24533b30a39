//! Addresses of peers.
use vstd::prelude::*;

use crate::linear_map::Key;

verus! {

/// An address of either version of the protocol.
#[derive(Clone, Copy, Debug, PartialEq, Eq, Structural)]
pub enum IpAddr {
    /// The four octets, the most significant first.
    V4(u8, u8, u8, u8),
    V6(u128),
}

impl IpAddr {
    /// Whether the address is one of the blocks 10.0.0.0/8, 172.16.0.0/12 and 192.168.0.0/16.
    pub open spec fn private(&self) -> bool {
        match *self {
            IpAddr::V4(a, b, _, _) => a == 10 || (a == 172 && 16 <= b <= 31) || (a == 192 && b
                == 168),
            IpAddr::V6(_) => false,
        }
    }

    /// Whether the address is one for private networks. Only addresses of version 4 are looked at.
    pub fn is_private(&self) -> (b: bool)
        ensures
            b == self.private(),
    {
        match *self {
            IpAddr::V4(a, b, _, _) => a == 10 || (a == 172 && 16 <= b && b <= 31) || (a == 192 && b
                == 168),
            IpAddr::V6(_) => false,
        }
    }
}

impl Key for IpAddr {
    type K = IpAddr;

    open spec fn key(&self) -> IpAddr {
        *self
    }

    fn same(&self, other: &Self) -> (b: bool) {
        *self == *other
    }
}

/// An address with a port.
#[derive(Clone, Copy, Debug, PartialEq, Eq, Structural)]
pub struct SocketAddr {
    pub ip: IpAddr,
    pub port: u16,
    /// Of version 6 only; 0 otherwise.
    pub flowinfo: u32,
    /// Of version 6 only; 0 otherwise.
    pub scope_id: u32,
}

impl Key for SocketAddr {
    type K = SocketAddr;

    open spec fn key(&self) -> SocketAddr {
        *self
    }

    fn same(&self, other: &Self) -> (b: bool) {
        *self == *other
    }
}

/// The private addresses are those of version 4 whose first octet is 10, whose first two octets are
/// 172 and one of 16 to 31, or whose first two octets are 192 and 168. The last two octets do not
/// count.
pub proof fn law_private_blocks(a: u8, b: u8, c: u8, d: u8, v6: u128)
    ensures
        IpAddr::V4(10, b, c, d).private(),
        IpAddr::V4(172, b, c, d).private() <==> 16 <= b <= 31,
        IpAddr::V4(192, b, c, d).private() <==> b == 168,
        a != 10 && a != 172 && a != 192 ==> !IpAddr::V4(a, b, c, d).private(),
        !IpAddr::V6(v6).private(),
{
}

/// An address is found private exactly if it is one of the three private blocks of version 4.
pub proof fn law_found_private(a: u8, b: u8, c: u8, d: u8, v6: u128, v4_found: bool, v6_found: bool)
    requires
        call_ensures(IpAddr::is_private, (&IpAddr::V4(a, b, c, d),), v4_found),
        call_ensures(IpAddr::is_private, (&IpAddr::V6(v6),), v6_found),
    ensures
        v4_found <==> a == 10 || (a == 172 && 16 <= b <= 31) || (a == 192 && b == 168),
        !v6_found,
{
}

} // verus!
