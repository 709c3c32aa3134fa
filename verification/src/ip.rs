//! A resolved IP address, as the classifier sees it.

use vstd::prelude::*;

verus! {

/// An IP address of either family, held as its octets in network order.
#[derive(Debug, Clone, Copy, PartialEq, Eq, Hash)]
pub enum IpAddr {
    /// An IPv4 address.
    V4([u8; 4]),
    /// An IPv6 address.
    V6([u8; 16]),
}

impl IpAddr {
    /// The address belongs to the IPv4 family.
    pub open spec fn spec_is_ipv4(&self) -> bool {
        self is V4
    }

    /// The address belongs to the IPv6 family.
    pub open spec fn spec_is_ipv6(&self) -> bool {
        self is V6
    }

    /// Returns true for an IPv4 address, false for an IPv6 address.
    #[must_use]
    #[verifier::when_used_as_spec(spec_is_ipv4)]
    pub fn is_ipv4(&self) -> (r: bool)
        ensures
            r == self.spec_is_ipv4(),
    {
        match self {
            IpAddr::V4(_) => true,
            IpAddr::V6(_) => false,
        }
    }

    /// Returns true for an IPv6 address, false for an IPv4 address.
    #[must_use]
    #[verifier::when_used_as_spec(spec_is_ipv6)]
    pub fn is_ipv6(&self) -> (r: bool)
        ensures
            r == self.spec_is_ipv6(),
    {
        match self {
            IpAddr::V4(_) => false,
            IpAddr::V6(_) => true,
        }
    }
}

} // verus!
