//! The few facts of the operating system that the state machines rely on.
use vstd::prelude::*;

verus! {

/// Relies on libc::EPERM: on Linux, "operation not permitted" is error 1.
#[verifier::external_body]
pub(crate) fn permission_denied_code() -> (r: i32)
    ensures
        r == 1,
{
    libc::EPERM
}

/// Relies on libc::NETLINK_USERSOCK: the netlink protocol reserved for user
/// space is number 2.
#[verifier::external_body]
pub(crate) fn user_socket_protocol() -> (r: i32)
    ensures
        r == 2,
{
    libc::NETLINK_USERSOCK
}

/// Relies on libc::NETLINK_ADD_MEMBERSHIP: the option that joins a multicast
/// group is number 1.
#[verifier::external_body]
pub(crate) fn add_membership_option() -> (r: i32)
    ensures
        r == 1,
{
    libc::NETLINK_ADD_MEMBERSHIP
}

/// Relies on libc::SOL_NETLINK: the netlink protocol level is number 270.
#[verifier::external_body]
pub(crate) fn netlink_level() -> (r: i32)
    ensures
        r == 270,
{
    libc::SOL_NETLINK
}

/// Relies on nix::unistd::getpid, which never fails. Which number it gives
/// depends on the process, so nothing is said of it.
#[verifier::external_body]
pub(crate) fn current_pid() -> (r: i32) {
    nix::unistd::getpid().as_raw()
}

} // verus!
