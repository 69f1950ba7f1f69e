//! Kernel ABI constants and decodings used by the isolator.
//!
//! The numeric values are the Linux ABI values (x86-64 and AArch64 agree
//! on all of them); the tests hold them against the C library's own
//! definitions.

use vstd::prelude::*;

verus! {

/// `CLONE_NEWUSER`: create the child in a new user namespace.
pub const CLONE_NEWUSER: u64 = 0x10000000;

/// `CLONE_NEWNS`: create the child in a new mount namespace.
pub const CLONE_NEWNS: u64 = 0x00020000;

/// `CLONE_NEWPID`: create the child in a new PID namespace.
pub const CLONE_NEWPID: u64 = 0x20000000;

/// `SIGCHLD`, as the clone termination-signal argument.
pub const SIGCHLD: u64 = 17;

/// `MS_BIND`: establish a bind mount.
pub const MS_BIND: u64 = 0x1000;

/// `MS_REC`: apply the mount operation recursively.
pub const MS_REC: u64 = 0x4000;

/// `MS_PRIVATE`: make mount events stop propagating out.
pub const MS_PRIVATE: u64 = 0x40000;

/// `SIGHUP`.
pub const SIGHUP: i32 = 1;

/// `SIGINT`.
pub const SIGINT: i32 = 2;

/// `SIGQUIT`.
pub const SIGQUIT: i32 = 3;

/// `SIGKILL`.
pub const SIGKILL: i32 = 9;

/// `SIGUSR1`.
pub const SIGUSR1: i32 = 10;

/// `SIGUSR2`.
pub const SIGUSR2: i32 = 12;

/// `SIGTERM`.
pub const SIGTERM: i32 = 15;

/// The clone flag word: always a new user and mount namespace plus the
/// `SIGCHLD` termination signal, and a new PID namespace only on request.
pub fn clone_flags(new_pid_namespace: bool) -> (r: u64)
    ensures
        r == if new_pid_namespace {
            CLONE_NEWUSER | CLONE_NEWNS | SIGCHLD | CLONE_NEWPID
        } else {
            CLONE_NEWUSER | CLONE_NEWNS | SIGCHLD
        },
{
    if new_pid_namespace {
        CLONE_NEWUSER | CLONE_NEWNS | SIGCHLD | CLONE_NEWPID
    } else {
        CLONE_NEWUSER | CLONE_NEWNS | SIGCHLD
    }
}

/// The mount flag word for a bind mount, recursive on request.
pub fn bind_mount_flags(recursive: bool) -> (r: u64)
    ensures
        r == if recursive {
            MS_BIND | MS_REC
        } else {
            MS_BIND
        },
{
    if recursive {
        MS_BIND | MS_REC
    } else {
        MS_BIND
    }
}

/// The mount flag word that makes `/` recursively private.
pub fn mount_private_flags() -> (r: u64)
    ensures
        r == MS_REC | MS_PRIVATE,
{
    MS_REC | MS_PRIVATE
}

/// The signals the parent forwards to the child, in the order their
/// handlers are installed.
pub fn forwarded_signals() -> (r: Vec<i32>)
    ensures
        r@ == seq![SIGTERM, SIGINT, SIGHUP, SIGQUIT, SIGUSR1, SIGUSR2],
{
    let mut v: Vec<i32> = Vec::new();
    v.push(SIGTERM);
    v.push(SIGINT);
    v.push(SIGHUP);
    v.push(SIGQUIT);
    v.push(SIGUSR1);
    v.push(SIGUSR2);
    proof {
        assert(v@ =~= seq![SIGTERM, SIGINT, SIGHUP, SIGQUIT, SIGUSR1, SIGUSR2]);
    }
    v
}

/// How the child ended.
#[derive(Clone, Copy, PartialEq, Eq, Structural, Debug)]
pub enum ChildExitReason {
    /// The child exited normally with this status code.
    Exited(i32),
    /// The child was terminated by this signal.
    Signaled(i32),
}

/// `WIFEXITED`: the low seven status bits are clear.
pub open spec fn spec_wifexited(status: u32) -> bool {
    status & 0x7f == 0
}

/// `WEXITSTATUS`: bits eight to fifteen.
pub open spec fn spec_wexitstatus(status: u32) -> u32 {
    (status >> 8) & 0xff
}

/// `WIFSIGNALED`: the low seven bits are neither all clear (exited) nor
/// all set (stopped).
pub open spec fn spec_wifsignaled(status: u32) -> bool {
    status & 0x7f != 0 && status & 0x7f != 0x7f
}

/// `WTERMSIG`: the low seven bits.
pub open spec fn spec_wtermsig(status: u32) -> u32 {
    status & 0x7f
}

/// What a raw `waitpid` status means: a normal exit, a termination by
/// signal, or neither (a stop or continuation, on which the wait loop
/// keeps waiting).
pub open spec fn spec_decode_wait_status(status: u32) -> Option<ChildExitReason> {
    if spec_wifexited(status) {
        Some(ChildExitReason::Exited(spec_wexitstatus(status) as i32))
    } else if spec_wifsignaled(status) {
        Some(ChildExitReason::Signaled(spec_wtermsig(status) as i32))
    } else {
        None
    }
}

/// Decode a raw `waitpid` status word.
pub fn decode_wait_status(status: u32) -> (r: Option<ChildExitReason>)
    ensures
        r == spec_decode_wait_status(status),
{
    assert(status & 0x7f <= 0x7f) by (bit_vector);
    let low: u32 = status & 0x7f;
    if low == 0 {
        assert((status >> 8) & 0xff <= 0xff) by (bit_vector);
        let code: u32 = (status >> 8) & 0xff;
        Some(ChildExitReason::Exited(code as i32))
    } else if low != 0x7f {
        Some(ChildExitReason::Signaled(low as i32))
    } else {
        None
    }
}

/// The status with which the parent process ends: the child's own exit
/// code, or 128 plus the signal number when the child was signaled.
pub fn exit_code_for(reason: ChildExitReason) -> (r: i32)
    requires
        reason matches ChildExitReason::Signaled(sig) ==> 0 <= sig <= 0x7f,
    ensures
        r == match reason {
            ChildExitReason::Exited(code) => code as int,
            ChildExitReason::Signaled(sig) => 128 + sig as int,
        },
{
    match reason {
        ChildExitReason::Exited(code) => code,
        ChildExitReason::Signaled(sig) => 128 + sig,
    }
}

/// What a forwarded signal does: with a valid pidfd at hand, the handler
/// sends exactly that signal to exactly that pidfd; without one it does
/// nothing.
pub fn forward_signal_decision(pidfd: i32, sig: i32) -> (r: Option<(i32, i32)>)
    ensures
        r == if pidfd >= 0 {
            Some((pidfd, sig))
        } else {
            None::<(i32, i32)>
        },
{
    if pidfd >= 0 {
        Some((pidfd, sig))
    } else {
        None
    }
}

} // verus!
