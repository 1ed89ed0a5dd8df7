//! A netlink echo endpoint: the decisions of opening a subscribed netlink
//! socket and of its receive-and-echo loop, as verified state machines. The
//! caller performs each requested system call and reports its outcome.
pub mod echo;
mod os;
pub mod setup;
pub mod sockopt;

pub use echo::{EchoAction, EchoLoop, EchoPhase};
pub use setup::{Setup, SetupAction, SetupError, SetupStage};
pub use sockopt::NetlinkSockOpt;
