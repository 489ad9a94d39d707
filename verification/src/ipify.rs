//! The per-pass cache of observed public IP addresses.
//!
//! A reconciliation pass observes at most one IPv4 and one IPv6 address; each
//! is fetched lazily on first need and reused by every later target of the
//! same pass. The cache never crosses a pass boundary.

use vstd::prelude::*;

verus! {

/// An IP address family, naming which lookup endpoint a pass queries.
#[derive(Clone, Copy, Debug, PartialEq, Eq, Structural)]
pub enum IpFamily {
    V4,
    V6,
}

/// The pass-scoped cache: at most one observed address per family.
pub struct Ips {
    pub v4: Option<String>,
    pub v6: Option<String>,
}

impl Ips {
    /// An empty cache, as each reconciliation pass starts with.
    pub fn new() -> (r: Self)
        ensures
            r.v4 is None,
            r.v6 is None,
    {
        Ips { v4: None, v6: None }
    }

    /// The cached address of `family`, if one has been observed.
    pub open spec fn of_family(self, family: IpFamily) -> Option<String> {
        match family {
            IpFamily::V4 => self.v4,
            IpFamily::V6 => self.v6,
        }
    }

    /// Stores the observed address of `family`, leaving the other family
    /// untouched.
    pub fn store(&mut self, family: IpFamily, addr: String)
        ensures
            final(self).of_family(family) == Some(addr),
            final(self).of_family(other_family(family)) == old(self).of_family(
                other_family(family),
            ),
    {
        match family {
            IpFamily::V4 => {
                self.v4 = Some(addr);
            },
            IpFamily::V6 => {
                self.v6 = Some(addr);
            },
        }
    }
}

/// The family that is not `family`.
pub open spec fn other_family(family: IpFamily) -> IpFamily {
    match family {
        IpFamily::V4 => IpFamily::V6,
        IpFamily::V6 => IpFamily::V4,
    }
}

} // verus!
