use netlink_echo::setup::{classify_errno, MEMBERSHIP_GROUP};
use netlink_echo::{
    EchoAction, EchoLoop, EchoPhase, NetlinkSockOpt, Setup, SetupAction, SetupError, SetupStage,
};

#[test]
fn sockopt_codes() {
    assert_eq!(NetlinkSockOpt::AddMembership.code(), 1);
    assert_eq!(NetlinkSockOpt::DropMembership.code(), 2);
    assert_eq!(NetlinkSockOpt::PktInfo.code(), 3);
    assert_eq!(NetlinkSockOpt::BroadcastError.code(), 4);
    assert_eq!(NetlinkSockOpt::NoEnobufs.code(), 5);
}

#[test]
fn classify_permission_denied_and_others() {
    assert_eq!(classify_errno(1), SetupError::PermissionDenied);
    assert_eq!(classify_errno(13), SetupError::Os(13));
    assert_eq!(classify_errno(98), SetupError::Os(98));
}

#[test]
fn setup_success_path() {
    let (mut s, a) = Setup::new(4242);
    assert_eq!(a, SetupAction::OpenSocket { protocol: 2 });
    assert_eq!(s.result(), None);
    let a = s.step(Ok(7));
    assert_eq!(a, SetupAction::Bind { fd: 7, pid: 4242, groups: 0 });
    let a = s.step(Ok(0));
    assert_eq!(
        a,
        SetupAction::SetOption { fd: 7, level: 270, option: 1, value: MEMBERSHIP_GROUP }
    );
    assert_eq!(MEMBERSHIP_GROUP, 22);
    let a = s.step(Ok(0));
    assert_eq!(a, SetupAction::Done);
    assert_eq!(s.stage, SetupStage::Ready(7));
    assert_eq!(s.result(), Some(Ok(7)));
    assert_eq!(s.step(Ok(0)), SetupAction::Done);
    assert_eq!(s.result(), Some(Ok(7)));
}

#[test]
fn setup_for_this_process_opens_first() {
    let (s, a) = Setup::for_this_process();
    assert_eq!(a, SetupAction::OpenSocket { protocol: 2 });
    assert_eq!(s.stage, SetupStage::Opening);
    assert!(s.pid > 0);
}

#[test]
fn setup_without_privilege_fails_before_the_loop() {
    let (mut s, _) = Setup::new(10);
    let a = s.step(Err(1));
    assert_eq!(a, SetupAction::Done);
    assert_eq!(s.result(), Some(Err(SetupError::PermissionDenied)));
}

#[test]
fn setup_bind_failure_closes_socket() {
    let (mut s, _) = Setup::new(10);
    s.step(Ok(5));
    let a = s.step(Err(98));
    assert_eq!(a, SetupAction::Close { fd: 5 });
    assert_eq!(s.result(), None);
    let a = s.step(Ok(0));
    assert_eq!(a, SetupAction::Done);
    assert_eq!(s.result(), Some(Err(SetupError::Os(98))));
}

#[test]
fn setup_membership_denied_closes_and_reports_permission() {
    let (mut s, _) = Setup::new(10);
    s.step(Ok(9));
    s.step(Ok(0));
    let a = s.step(Err(1));
    assert_eq!(a, SetupAction::Close { fd: 9 });
    let a = s.step(Err(9));
    assert_eq!(a, SetupAction::Done);
    assert_eq!(s.result(), Some(Err(SetupError::PermissionDenied)));
}

#[test]
fn echo_one_message_of_37_bytes() {
    let mut buf = [0u8; 1024];
    let message: Vec<u8> = (0..37u8).map(|b| b.wrapping_mul(7).wrapping_add(3)).collect();
    let (mut lp, a) = EchoLoop::new(buf.len());
    assert_eq!(a, EchoAction::Print { count: 0 });
    assert_eq!(lp.step(Ok(0)), EchoAction::Receive { capacity: 1024 });
    buf[..37].copy_from_slice(&message);
    let a = lp.step(Ok(37));
    let sent = match a {
        EchoAction::Send { len } => &buf[..len],
        other => panic!("expected a send, got {:?}", other),
    };
    assert_eq!(sent.len(), 1024);
    assert_eq!(&sent[..37], &message[..]);
    assert_eq!(lp.step(Ok(1024)), EchoAction::Print { count: 1 });
    assert_eq!(lp.count, 1);
    assert_eq!(lp.phase, EchoPhase::Announcing);
}

#[test]
fn echo_counts_in_order() {
    let (mut lp, first) = EchoLoop::new(16);
    let mut printed = vec![first];
    for _ in 0..5 {
        assert_eq!(lp.step(Ok(0)), EchoAction::Receive { capacity: 16 });
        assert_eq!(lp.step(Ok(3)), EchoAction::Send { len: 16 });
        printed.push(lp.step(Ok(16)));
    }
    let expected: Vec<EchoAction> = (0..6u64).map(|n| EchoAction::Print { count: n }).collect();
    assert_eq!(printed, expected);
}

#[test]
fn echo_receive_failure_reported_once() {
    let (mut lp, _) = EchoLoop::new(8);
    lp.step(Ok(0));
    assert_eq!(lp.step(Err(4)), EchoAction::Report { errno: 4 });
    assert_eq!(lp.phase, EchoPhase::Stopped);
    assert_eq!(lp.step(Ok(0)), EchoAction::Halt);
    assert_eq!(lp.step(Err(5)), EchoAction::Halt);
    assert_eq!(lp.count, 0);
}

#[test]
fn echo_send_failure_reported_once() {
    let (mut lp, _) = EchoLoop::new(8);
    lp.step(Ok(0));
    lp.step(Ok(8));
    assert_eq!(lp.step(Err(105)), EchoAction::Report { errno: 105 });
    assert_eq!(lp.step(Ok(8)), EchoAction::Halt);
    assert_eq!(lp.count, 0);
}

#[test]
fn echo_can_step_at_count_limit() {
    let lp = EchoLoop { capacity: 8, count: u64::MAX, phase: EchoPhase::Sending };
    assert!(!lp.can_step());
    let lp = EchoLoop { capacity: 8, count: u64::MAX, phase: EchoPhase::Receiving };
    assert!(lp.can_step());
    let lp = EchoLoop { capacity: 8, count: 3, phase: EchoPhase::Sending };
    assert!(lp.can_step());
}
