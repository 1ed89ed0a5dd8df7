use vstd::prelude::*;

verus! {

/// The options of the netlink protocol level that this endpoint knows of.
#[derive(Debug, Clone, Copy, PartialEq, Eq, Structural)]
pub enum NetlinkSockOpt {
    AddMembership,
    DropMembership,
    PktInfo,
    BroadcastError,
    NoEnobufs,
}

impl NetlinkSockOpt {
    /// The number by which the kernel knows the option.
    pub open spec fn spec_code(self) -> i32 {
        match self {
            NetlinkSockOpt::AddMembership => 1,
            NetlinkSockOpt::DropMembership => 2,
            NetlinkSockOpt::PktInfo => 3,
            NetlinkSockOpt::BroadcastError => 4,
            NetlinkSockOpt::NoEnobufs => 5,
        }
    }

    pub fn code(&self) -> (r: i32)
        ensures
            r == self.spec_code(),
    {
        match self {
            NetlinkSockOpt::AddMembership => 1,
            NetlinkSockOpt::DropMembership => 2,
            NetlinkSockOpt::PktInfo => 3,
            NetlinkSockOpt::BroadcastError => 4,
            NetlinkSockOpt::NoEnobufs => 5,
        }
    }
}

} // verus!
