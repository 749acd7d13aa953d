use vstd::prelude::*;

verus! {

/// An IP address as a plain numeric value, one variant per family.
#[derive(Clone, Copy, Debug, PartialEq, Eq, Structural)]
pub enum IpAddress {
    V4(u32),
    V6(u128),
}

impl IpAddress {
    /// The number of bits in an address of this family, hence the
    /// largest prefix length a CIDR of this family can carry.
    pub open spec fn max_prefix_len(self) -> u8 {
        match self {
            IpAddress::V4(_) => 32,
            IpAddress::V6(_) => 128,
        }
    }

    pub open spec fn is_v4(self) -> bool {
        self is V4
    }

    /// Two addresses belong to the same family.
    pub open spec fn same_family(self, other: IpAddress) -> bool {
        self.is_v4() == other.is_v4()
    }

    /// Executable family test.
    pub fn family_matches(&self, other: &IpAddress) -> (r: bool)
        ensures
            r == self.same_family(*other),
    {
        match (self, other) {
            (IpAddress::V4(_), IpAddress::V4(_)) => true,
            (IpAddress::V6(_), IpAddress::V6(_)) => true,
            _ => false,
        }
    }
}

/// A CIDR-qualified address: an address together with a prefix length.
#[derive(Clone, Copy, Debug, PartialEq, Eq, Structural)]
pub struct IpNet {
    pub addr: IpAddress,
    pub prefix_len: u8,
}

impl IpNet {
    /// A CIDR is well formed when its prefix length fits its family.
    pub open spec fn wf(self) -> bool {
        self.prefix_len <= self.addr.max_prefix_len()
    }

    /// Executable counterpart of `wf`.
    pub fn check_wf(&self) -> (b: bool)
        ensures
            b == self.wf(),
    {
        let max: u8 = match self.addr {
            IpAddress::V4(_) => 32,
            IpAddress::V6(_) => 128,
        };
        self.prefix_len <= max
    }

    /// Qualify an address with a prefix length; rejects a prefix length
    /// that is too long for the address family.
    pub fn new(addr: IpAddress, prefix_len: u8) -> (r: Option<IpNet>)
        ensures
            r is Some <==> prefix_len <= addr.max_prefix_len(),
            r matches Some(n) ==> n == (IpNet { addr, prefix_len }),
    {
        let max: u8 = match addr {
            IpAddress::V4(_) => 32,
            IpAddress::V6(_) => 128,
        };
        if prefix_len <= max {
            Some(IpNet { addr, prefix_len })
        } else {
            None
        }
    }
}

} // verus!
