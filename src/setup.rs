//! Opening the socket: create it, bind it to this process, join the group.
//! Each step is a request to the caller, who reports back how it went; a
//! socket that was opened is closed again on every failure after it.
use crate::os;
use crate::sockopt::NetlinkSockOpt;
use vstd::prelude::*;

verus! {

/// The multicast group that the socket joins.
pub const MEMBERSHIP_GROUP: i32 = 22;

/// Why the socket could not be set up.
#[derive(Debug, Clone, Copy, PartialEq, Eq, Structural)]
pub enum SetupError {
    /// The system refused for want of privilege.
    PermissionDenied,
    /// Any other failure, with its error number.
    Os(i32),
}

/// The error that an error number stands for.
pub open spec fn classify(errno: i32) -> SetupError {
    if errno == 1 {
        SetupError::PermissionDenied
    } else {
        SetupError::Os(errno)
    }
}

pub fn classify_errno(errno: i32) -> (r: SetupError)
    ensures
        r == classify(errno),
{
    if errno == os::permission_denied_code() {
        SetupError::PermissionDenied
    } else {
        SetupError::Os(errno)
    }
}

/// Where the setup stands; the descriptor is that of the socket held.
#[derive(Debug, Clone, Copy, PartialEq, Eq, Structural)]
pub enum SetupStage {
    Opening,
    Binding(i32),
    Subscribing(i32),
    Closing(i32, SetupError),
    Ready(i32),
    Failed(SetupError),
}

/// What the caller is asked to do next.
#[derive(Debug, Clone, Copy, PartialEq, Eq, Structural)]
pub enum SetupAction {
    /// Create a raw netlink socket for the given protocol, with no flags.
    OpenSocket { protocol: i32 },
    /// Bind the socket to the netlink address (pid, groups).
    Bind { fd: i32, pid: u32, groups: u32 },
    /// Set an integer socket option.
    SetOption { fd: i32, level: i32, option: i32, value: i32 },
    /// Close the socket.
    Close { fd: i32 },
    /// Nothing more: the setup has ended.
    Done,
}

/// The construction of one socket, for the process with the given id.
#[derive(Debug, Clone, Copy, PartialEq, Eq, Structural)]
pub struct Setup {
    pub pid: u32,
    pub stage: SetupStage,
}

impl Setup {
    /// The socket that the setup holds open and has not asked to close.
    pub open spec fn held(self) -> Option<i32> {
        match self.stage {
            SetupStage::Binding(fd) => Some(fd),
            SetupStage::Subscribing(fd) => Some(fd),
            SetupStage::Ready(fd) => Some(fd),
            _ => None,
        }
    }

    /// The next setup and request, given how the last request went: `Ok`
    /// with the new descriptor (or any value where none is made), `Err` with
    /// the error number.
    pub open spec fn next(self, outcome: Result<i32, i32>) -> (Setup, SetupAction) {
        let pid = self.pid;
        match (self.stage, outcome) {
            (SetupStage::Opening, Ok(fd)) => (
                Setup { pid, stage: SetupStage::Binding(fd) },
                SetupAction::Bind { fd, pid, groups: 0 },
            ),
            (SetupStage::Binding(fd), Ok(_)) => (
                Setup { pid, stage: SetupStage::Subscribing(fd) },
                SetupAction::SetOption {
                    fd,
                    level: 270,
                    option: NetlinkSockOpt::AddMembership.spec_code(),
                    value: MEMBERSHIP_GROUP,
                },
            ),
            (SetupStage::Subscribing(fd), Ok(_)) => (
                Setup { pid, stage: SetupStage::Ready(fd) },
                SetupAction::Done,
            ),
            (SetupStage::Opening, Err(e)) => (
                Setup { pid, stage: SetupStage::Failed(classify(e)) },
                SetupAction::Done,
            ),
            (SetupStage::Binding(fd), Err(e)) => (
                Setup { pid, stage: SetupStage::Closing(fd, classify(e)) },
                SetupAction::Close { fd },
            ),
            (SetupStage::Subscribing(fd), Err(e)) => (
                Setup { pid, stage: SetupStage::Closing(fd, classify(e)) },
                SetupAction::Close { fd },
            ),
            (SetupStage::Closing(_, err), _) => (
                Setup { pid, stage: SetupStage::Failed(err) },
                SetupAction::Done,
            ),
            _ => (self, SetupAction::Done),
        }
    }

    /// Starts a setup for the process `pid`: the first request opens the socket.
    pub fn new(pid: u32) -> (r: (Setup, SetupAction))
        ensures
            r.0 == (Setup { pid, stage: SetupStage::Opening }),
            r.1 == (SetupAction::OpenSocket { protocol: 2 }),
    {
        let protocol = os::user_socket_protocol();
        (Setup { pid, stage: SetupStage::Opening }, SetupAction::OpenSocket { protocol })
    }

    /// Starts a setup for the calling process.
    pub fn for_this_process() -> (r: (Setup, SetupAction))
        ensures
            r.0.stage == SetupStage::Opening,
            r.1 == (SetupAction::OpenSocket { protocol: 2 }),
    {
        let pid = os::current_pid();
        Setup::new(pid as u32)
    }

    /// Takes in how the last request went and gives the next one.
    pub fn step(&mut self, outcome: Result<i32, i32>) -> (r: SetupAction)
        ensures
            (*final(self), r) == old(self).next(outcome),
    {
        let pid = self.pid;
        match (self.stage, outcome) {
            (SetupStage::Opening, Ok(fd)) => {
                self.stage = SetupStage::Binding(fd);
                SetupAction::Bind { fd, pid, groups: 0 }
            },
            (SetupStage::Binding(fd), Ok(_)) => {
                self.stage = SetupStage::Subscribing(fd);
                SetupAction::SetOption {
                    fd,
                    level: os::netlink_level(),
                    option: os::add_membership_option(),
                    value: MEMBERSHIP_GROUP,
                }
            },
            (SetupStage::Subscribing(fd), Ok(_)) => {
                self.stage = SetupStage::Ready(fd);
                SetupAction::Done
            },
            (SetupStage::Opening, Err(e)) => {
                self.stage = SetupStage::Failed(classify_errno(e));
                SetupAction::Done
            },
            (SetupStage::Binding(fd), Err(e)) => {
                self.stage = SetupStage::Closing(fd, classify_errno(e));
                SetupAction::Close { fd }
            },
            (SetupStage::Subscribing(fd), Err(e)) => {
                self.stage = SetupStage::Closing(fd, classify_errno(e));
                SetupAction::Close { fd }
            },
            (SetupStage::Closing(_, err), _) => {
                self.stage = SetupStage::Failed(err);
                SetupAction::Done
            },
            _ => SetupAction::Done,
        }
    }

    /// How the setup ended: the descriptor of the ready socket, or the
    /// error; `None` while it goes on.
    pub fn result(&self) -> (r: Option<Result<i32, SetupError>>)
        ensures
            r == match self.stage {
                SetupStage::Ready(fd) => Some(Ok(fd)),
                SetupStage::Failed(e) => Some(Err(e)),
                _ => None::<Result<i32, SetupError>>,
            },
    {
        match self.stage {
            SetupStage::Ready(fd) => Some(Ok(fd)),
            SetupStage::Failed(e) => Some(Err(e)),
            _ => None,
        }
    }
}


/// No socket is leaked: a step lets go of the socket it holds only by asking
/// for it to be closed, takes hold of one only when it was just opened, and
/// a failed setup holds none.
pub proof fn lemma_socket_released_by_close(s: Setup, outcome: Result<i32, i32>)
    ensures
        ({
            let (t, a) = s.next(outcome);
            &&& s.held() is Some && t.held() != s.held() ==> a == (SetupAction::Close {
                fd: s.held()->0,
            })
            &&& t.held() is Some && t.held() != s.held() ==> s.stage == SetupStage::Opening
                && outcome == Ok::<i32, i32>(t.held()->0)
            &&& t.stage is Failed ==> t.held() is None
        }),
{
}

/// Lack of privilege is told apart: whichever step of the setup is refused
/// with "operation not permitted", the setup ends, once any socket it opened
/// is closed, in the permission error and holds no socket.
pub proof fn lemma_denied_ends_denied(s: Setup, after_close: Result<i32, i32>)
    requires
        s.stage == SetupStage::Opening || s.stage is Binding || s.stage is Subscribing,
    ensures
        ({
            let t = s.next(Err(1)).0;
            let f = if t.stage is Closing {
                t.next(after_close).0
            } else {
                t
            };
            f.stage == SetupStage::Failed(SetupError::PermissionDenied) && f.held() is None
        }),
{
}

} // verus!
