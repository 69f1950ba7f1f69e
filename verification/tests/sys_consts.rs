use rugix_isolator::sys::{
    bind_mount_flags, clone_flags, decode_wait_status, exit_code_for, forward_signal_decision,
    forwarded_signals, mount_private_flags, SIGHUP, SIGINT, SIGKILL, SIGQUIT, SIGTERM, SIGUSR1,
    SIGUSR2,
};
use rugix_isolator::ChildExitReason;

#[test]
fn clone_flags_match_libc() {
    let base = (libc::CLONE_NEWUSER | libc::CLONE_NEWNS) as u64 | libc::SIGCHLD as u64;
    assert_eq!(clone_flags(false), base);
    assert_eq!(clone_flags(true), base | libc::CLONE_NEWPID as u64);
}

#[test]
fn mount_flags_match_libc() {
    assert_eq!(bind_mount_flags(false), libc::MS_BIND as u64);
    assert_eq!(bind_mount_flags(true), (libc::MS_BIND | libc::MS_REC) as u64);
    assert_eq!(mount_private_flags(), (libc::MS_REC | libc::MS_PRIVATE) as u64);
}

#[test]
fn signal_numbers_match_libc() {
    assert_eq!(SIGTERM, libc::SIGTERM);
    assert_eq!(SIGINT, libc::SIGINT);
    assert_eq!(SIGHUP, libc::SIGHUP);
    assert_eq!(SIGQUIT, libc::SIGQUIT);
    assert_eq!(SIGUSR1, libc::SIGUSR1);
    assert_eq!(SIGUSR2, libc::SIGUSR2);
    assert_eq!(SIGKILL, libc::SIGKILL);
}

#[test]
fn forwarded_set_in_order() {
    assert_eq!(
        forwarded_signals(),
        vec![libc::SIGTERM, libc::SIGINT, libc::SIGHUP, libc::SIGQUIT, libc::SIGUSR1,
            libc::SIGUSR2]
    );
}

#[test]
fn decode_matches_libc_for_normal_exit() {
    for code in [0, 1, 2, 77, 255] {
        let status: i32 = code << 8;
        assert!(libc::WIFEXITED(status));
        assert_eq!(
            decode_wait_status(status as u32),
            Some(ChildExitReason::Exited(libc::WEXITSTATUS(status)))
        );
    }
}

#[test]
fn decode_matches_libc_for_signaled() {
    for sig in [libc::SIGTERM, libc::SIGKILL, libc::SIGINT] {
        let status: i32 = sig;
        assert!(libc::WIFSIGNALED(status));
        assert_eq!(
            decode_wait_status(status as u32),
            Some(ChildExitReason::Signaled(libc::WTERMSIG(status)))
        );
    }
}

#[test]
fn decode_keeps_waiting_on_stop() {
    let status: i32 = (libc::SIGSTOP << 8) | 0x7f;
    assert!(libc::WIFSTOPPED(status));
    assert_eq!(decode_wait_status(status as u32), None);
}

#[test]
fn exit_code_follows_shell_convention() {
    assert_eq!(exit_code_for(ChildExitReason::Exited(0)), 0);
    assert_eq!(exit_code_for(ChildExitReason::Exited(3)), 3);
    assert_eq!(exit_code_for(ChildExitReason::Signaled(libc::SIGTERM)), 128 + libc::SIGTERM);
}

#[test]
fn forwarding_sends_exactly_one_signal() {
    assert_eq!(forward_signal_decision(5, libc::SIGTERM), Some((5, libc::SIGTERM)));
    assert_eq!(forward_signal_decision(0, libc::SIGUSR1), Some((0, libc::SIGUSR1)));
    assert_eq!(forward_signal_decision(-1, libc::SIGTERM), None);
}
