//! The child-side setup protocol, as a verified state machine.
//!
//! After the clone, the child may only run async-signal-safe code until it
//! has passed the barrier. The machine decides each step; the surrounding
//! program performs the system call an action asks for and feeds back
//! whether it succeeded. The protocol is: wait on the barrier pipe, make
//! the mount propagation of `/` private, establish the configured bind
//! mounts in order, then chroot and change to `/` if configured.

use vstd::prelude::*;

use crate::config::Isolator;
use crate::errors::{IsolateError, IsolateErrorKind};
use crate::sys::{bind_mount_flags, mount_private_flags, MS_BIND, MS_PRIVATE, MS_REC};
use crate::strutil::{upto_exec, lemma_upto};
use vstd::pervasive::arbitrary;

verus! {

/// Whether `s` holds a NUL character (which no C path may hold).
pub open spec fn has_nul(s: Seq<char>) -> bool {
    exists|j: int| 0 <= j < s.len() && s[j] == '\u{0}'
}

/// Check whether `s` holds a NUL character.
pub fn has_nul_exec(s: &str) -> (r: bool)
    ensures
        r == has_nul(s@),
{
    proof {
        lemma_upto(s@, '\u{0}');
    }
    let n: usize = upto_exec(s, '\u{0}');
    n < s.unicode_len()
}

/// Child-side protocol states.
#[derive(Debug, Clone, PartialEq, Eq)]
pub enum ChildState {
    /// Blocked on the barrier pipe.
    Blocked,
    /// Making the mount propagation of `/` private.
    MountPrivate,
    /// Establishing the bind mount at this index.
    BindMounts { next: usize },
    /// Applying the chroot.
    Chroot,
    /// Changing directory to `/` after the chroot.
    Chdir,
    /// The protocol has ended; no further step is taken.
    Finished,
}

/// What the surrounding program must do next on the child side.
#[derive(Debug, PartialEq, Eq)]
pub enum ChildAction {
    /// Read one byte from the barrier pipe's read end; end of file counts
    /// as a release.
    ReadBarrier,
    /// `mount(NULL, "/", NULL, flags, NULL)`.
    MakeMountPrivate { flags: u64 },
    /// `mount(src, dst, NULL, flags, NULL)`.
    MountBind { src: String, dst: String, flags: u64 },
    /// `chroot(path)`.
    ApplyChroot { path: String },
    /// `chdir("/")`.
    ChangeDirRoot,
    /// Setup has ended: hand this result to the caller.
    Finish(Result<(), IsolateError>),
}

/// The outcome of the last action, reported back to the machine.
#[derive(Debug, Clone, PartialEq, Eq)]
pub enum ChildEvent {
    /// The action succeeded.
    Succeeded,
    /// The action failed; the OS error text, when there is one.
    Failed { error: Option<String> },
}

/// Well-formedness of a state with respect to the configuration: a bind
/// index stays within the list, and the chroot states exist only when a
/// chroot is configured.
pub open spec fn child_state_wf(cfg: Isolator, state: ChildState) -> bool {
    &&& cfg.bind_mounts@.len() <= usize::MAX
    &&& match state {
        ChildState::BindMounts { next } => next < cfg.bind_mounts@.len(),
        ChildState::Chroot => cfg.chroot_path is Some,
        ChildState::Chdir => cfg.chroot_path is Some,
        _ => true,
    }
}

/// Where the protocol goes once the bind mounts up to `i` are done: the
/// next bind mount (unless a path holds a NUL byte), else the chroot,
/// else the successful end.
pub open spec fn spec_child_advance(cfg: Isolator, i: usize) -> (ChildState, ChildAction) {
    if i < cfg.bind_mounts@.len() {
        let b = cfg.bind_mounts@[i as int];
        if has_nul(b.src@) {
            (
                ChildState::Finished,
                ChildAction::Finish(
                    Err(
                        IsolateError {
                            kind: IsolateErrorKind::InvalidSourcePath { path: b.src },
                            source: None,
                        },
                    ),
                ),
            )
        } else if has_nul(b.dst@) {
            (
                ChildState::Finished,
                ChildAction::Finish(
                    Err(
                        IsolateError {
                            kind: IsolateErrorKind::InvalidDestinationPath { path: b.dst },
                            source: None,
                        },
                    ),
                ),
            )
        } else {
            (
                ChildState::BindMounts { next: i },
                ChildAction::MountBind {
                    src: b.src,
                    dst: b.dst,
                    flags: if b.recursive {
                        MS_BIND | MS_REC
                    } else {
                        MS_BIND
                    },
                },
            )
        }
    } else {
        match cfg.chroot_path {
            Some(path) => (ChildState::Chroot, ChildAction::ApplyChroot { path }),
            None => (ChildState::Finished, ChildAction::Finish(Ok(()))),
        }
    }
}

/// The transition relation of the child machine.
pub open spec fn spec_child_step(cfg: Isolator, state: ChildState, event: ChildEvent) -> (
    ChildState,
    ChildAction,
) {
    match (state, event) {
        (ChildState::Blocked, ChildEvent::Succeeded) => (
            ChildState::MountPrivate,
            ChildAction::MakeMountPrivate { flags: MS_REC | MS_PRIVATE },
        ),
        (ChildState::Blocked, ChildEvent::Failed { error }) => (
            ChildState::Finished,
            ChildAction::Finish(
                Err(IsolateError { kind: IsolateErrorKind::BarrierWaitFailed, source: error }),
            ),
        ),
        (ChildState::MountPrivate, ChildEvent::Succeeded) => spec_child_advance(cfg, 0),
        (ChildState::MountPrivate, ChildEvent::Failed { error }) => (
            ChildState::Finished,
            ChildAction::Finish(
                Err(IsolateError { kind: IsolateErrorKind::MountPrivateFailed, source: error }),
            ),
        ),
        (ChildState::BindMounts { next }, ChildEvent::Succeeded) => spec_child_advance(
            cfg,
            (next + 1) as usize,
        ),
        (ChildState::BindMounts { next }, ChildEvent::Failed { error }) => (
            ChildState::Finished,
            ChildAction::Finish(
                Err(
                    IsolateError {
                        kind: IsolateErrorKind::BindMountFailed {
                            src: cfg.bind_mounts@[next as int].src,
                            dst: cfg.bind_mounts@[next as int].dst,
                        },
                        source: error,
                    },
                ),
            ),
        ),
        (ChildState::Chroot, ChildEvent::Succeeded) => (
            ChildState::Chdir,
            ChildAction::ChangeDirRoot,
        ),
        (ChildState::Chroot, ChildEvent::Failed { error }) => (
            ChildState::Finished,
            ChildAction::Finish(
                Err(
                    IsolateError {
                        kind: IsolateErrorKind::ChrootFailed {
                            path: match cfg.chroot_path {
                                Some(path) => path,
                                None => arbitrary(),
                            },
                        },
                        source: error,
                    },
                ),
            ),
        ),
        (ChildState::Chdir, ChildEvent::Succeeded) => (
            ChildState::Finished,
            ChildAction::Finish(Ok(())),
        ),
        (ChildState::Chdir, ChildEvent::Failed { error }) => (
            ChildState::Finished,
            ChildAction::Finish(
                Err(IsolateError { kind: IsolateErrorKind::ChdirFailed, source: error }),
            ),
        ),
        (ChildState::Finished, _) => (ChildState::Finished, ChildAction::Finish(Ok(()))),
    }
}

/// A measure that strictly shrinks along the protocol.
pub open spec fn child_rank(cfg: Isolator, state: ChildState) -> int {
    match state {
        ChildState::Blocked => cfg.bind_mounts@.len() as int + 5,
        ChildState::MountPrivate => cfg.bind_mounts@.len() as int + 4,
        ChildState::BindMounts { next } => 3 + cfg.bind_mounts@.len() as int - next,
        ChildState::Chroot => 2,
        ChildState::Chdir => 1,
        ChildState::Finished => 0,
    }
}

/// The actions of a run in which every action succeeds, starting after
/// the action that led into `state`.
pub open spec fn spec_success_trace_from(cfg: Isolator, state: ChildState) -> Seq<ChildAction>
    decreases child_rank(cfg, state)
        when child_state_wf(cfg, state)
    via spec_success_trace_decreases
{
    if state is Finished {
        Seq::empty()
    } else {
        let next = spec_child_step(cfg, state, ChildEvent::Succeeded);
        seq![next.1] + spec_success_trace_from(cfg, next.0)
    }
}

#[via_fn]
proof fn spec_success_trace_decreases(cfg: Isolator, state: ChildState) {
}

/// The action a bind mount asks for.
pub open spec fn mount_action_of(b: crate::config::BindMount) -> ChildAction {
    ChildAction::MountBind {
        src: b.src,
        dst: b.dst,
        flags: if b.recursive {
            MS_BIND | MS_REC
        } else {
            MS_BIND
        },
    }
}

/// Whether no configured path holds a NUL character.
pub open spec fn nul_free(cfg: Isolator) -> bool {
    forall|i: int|
        0 <= i < cfg.bind_mounts@.len() ==> !has_nul(#[trigger] cfg.bind_mounts@[i].src@)
            && !has_nul(cfg.bind_mounts@[i].dst@)
}

/// The actions still owed once the bind mounts before `i` are done: the
/// remaining bind mounts in order, the chroot steps when configured, and
/// the successful hand-back.
pub open spec fn spec_expected_tail(cfg: Isolator, i: int) -> Seq<ChildAction> {
    Seq::new(
        (cfg.bind_mounts@.len() - i) as nat,
        |k: int| mount_action_of(cfg.bind_mounts@[i + k]),
    ) + (match cfg.chroot_path {
        Some(path) => seq![
            ChildAction::ApplyChroot { path },
            ChildAction::ChangeDirRoot,
        ],
        None => Seq::empty(),
    }) + seq![ChildAction::Finish(Ok(()))]
}

proof fn lemma_child_tail(cfg: Isolator, i: usize)
    requires
        nul_free(cfg),
        i <= cfg.bind_mounts@.len(),
        cfg.bind_mounts@.len() <= usize::MAX,
    ensures
        ({
            let next = spec_child_advance(cfg, i);
            seq![next.1] + spec_success_trace_from(cfg, next.0) == spec_expected_tail(cfg, i as int)
        }),
    decreases cfg.bind_mounts@.len() - i,
{
    let next = spec_child_advance(cfg, i);
    if (i as int) < cfg.bind_mounts@.len() {
        let b = cfg.bind_mounts@[i as int];
        assert(!has_nul(b.src@));
        assert(!has_nul(b.dst@));
        assert(next.0 == ChildState::BindMounts { next: i });
        assert(next.1 == mount_action_of(b));
        let j: usize = (i + 1) as usize;
        lemma_child_tail(cfg, j);
        let next2 = spec_child_advance(cfg, j);
        assert(child_state_wf(cfg, ChildState::BindMounts { next: i }));
        assert(spec_child_step(cfg, ChildState::BindMounts { next: i }, ChildEvent::Succeeded)
            == next2);
        assert(spec_success_trace_from(cfg, ChildState::BindMounts { next: i }) == seq![next2.1]
            + spec_success_trace_from(cfg, next2.0));
        assert(spec_expected_tail(cfg, i as int) =~= seq![mount_action_of(b)]
            + spec_expected_tail(cfg, j as int));
        assert(seq![next.1] + spec_success_trace_from(cfg, next.0) =~= spec_expected_tail(
            cfg,
            i as int,
        ));
    } else {
        match cfg.chroot_path {
            Some(path) => {
                assert(next.0 == ChildState::Chroot);
                assert(spec_success_trace_from(cfg, ChildState::Chroot) == seq![
                    ChildAction::ChangeDirRoot,
                ] + spec_success_trace_from(cfg, ChildState::Chdir));
                assert(spec_success_trace_from(cfg, ChildState::Chdir) == seq![
                    ChildAction::Finish(Ok(())),
                ] + spec_success_trace_from(cfg, ChildState::Finished));
                assert(seq![next.1] + spec_success_trace_from(cfg, next.0) =~= spec_expected_tail(
                    cfg,
                    i as int,
                ));
            },
            None => {
                assert(seq![next.1] + spec_success_trace_from(cfg, next.0) =~= spec_expected_tail(
                    cfg,
                    i as int,
                ));
            },
        }
    }
}

/// In a run in which every action succeeds, a child with NUL-free paths
/// performs exactly: the barrier read, the mount-private step, the
/// configured bind mounts in their given order, the chroot and the change
/// to `/` when a chroot is configured, and the successful hand-back.
/// In particular, no mount or chroot precedes the barrier read, and the
/// bind mounts are never reordered.
pub proof fn lemma_child_success_trace(cfg: Isolator)
    requires
        nul_free(cfg),
        cfg.bind_mounts@.len() <= usize::MAX,
    ensures
        seq![ChildAction::ReadBarrier] + spec_success_trace_from(cfg, ChildState::Blocked)
            == seq![
            ChildAction::ReadBarrier,
            ChildAction::MakeMountPrivate { flags: MS_REC | MS_PRIVATE },
        ] + spec_expected_tail(cfg, 0),
{
    assert(spec_success_trace_from(cfg, ChildState::Blocked) == seq![
        ChildAction::MakeMountPrivate { flags: MS_REC | MS_PRIVATE },
    ] + spec_success_trace_from(cfg, ChildState::MountPrivate));
    let next = spec_child_advance(cfg, 0);
    assert(spec_child_step(cfg, ChildState::MountPrivate, ChildEvent::Succeeded) == next);
    assert(spec_success_trace_from(cfg, ChildState::MountPrivate) == seq![next.1]
        + spec_success_trace_from(cfg, next.0));
    lemma_child_tail(cfg, 0);
    assert(seq![ChildAction::ReadBarrier] + spec_success_trace_from(cfg, ChildState::Blocked)
        =~= seq![
        ChildAction::ReadBarrier,
        ChildAction::MakeMountPrivate { flags: MS_REC | MS_PRIVATE },
    ] + spec_expected_tail(cfg, 0));
}

/// While the barrier has not been passed, the child mounts nothing: a
/// failed barrier read ends the protocol at once with the barrier error.
pub proof fn lemma_child_blocked_fails_closed(cfg: Isolator, error: Option<String>)
    ensures
        spec_child_step(cfg, ChildState::Blocked, ChildEvent::Failed { error }).0
            is Finished,
        spec_child_step(cfg, ChildState::Blocked, ChildEvent::Failed { error }).1 matches
            ChildAction::Finish(r) && r matches Err(e) && e.kind
            == IsolateErrorKind::BarrierWaitFailed && e.source == error,
{
}

/// The child machine's initial state and first action: block on the
/// barrier before touching anything.
pub fn child_start() -> (r: (ChildState, ChildAction))
    ensures
        r == (ChildState::Blocked, ChildAction::ReadBarrier),
{
    (ChildState::Blocked, ChildAction::ReadBarrier)
}

/// One step of the child machine: from the current state and the outcome
/// of the last action, decide the next state and action.
pub fn child_step(cfg: &Isolator, state: ChildState, event: ChildEvent) -> (r: (
    ChildState,
    ChildAction,
))
    requires
        !(state is Finished),
        child_state_wf(*cfg, state),
    ensures
        r == spec_child_step(*cfg, state, event),
        child_state_wf(*cfg, r.0),
{
    match (state, event) {
        (ChildState::Blocked, ChildEvent::Succeeded) => (
            ChildState::MountPrivate,
            ChildAction::MakeMountPrivate { flags: mount_private_flags() },
        ),
        (ChildState::Blocked, ChildEvent::Failed { error }) => (
            ChildState::Finished,
            ChildAction::Finish(
                Err(IsolateError { kind: IsolateErrorKind::BarrierWaitFailed, source: error }),
            ),
        ),
        (ChildState::MountPrivate, ChildEvent::Succeeded) => child_advance(cfg, 0),
        (ChildState::MountPrivate, ChildEvent::Failed { error }) => (
            ChildState::Finished,
            ChildAction::Finish(
                Err(IsolateError { kind: IsolateErrorKind::MountPrivateFailed, source: error }),
            ),
        ),
        (ChildState::BindMounts { next }, ChildEvent::Succeeded) => {
            let total: usize = cfg.bind_mounts.len();
            assert(next < total);
            child_advance(cfg, next + 1)
        },
        (ChildState::BindMounts { next }, ChildEvent::Failed { error }) => (
            ChildState::Finished,
            ChildAction::Finish(
                Err(
                    IsolateError {
                        kind: IsolateErrorKind::BindMountFailed {
                            src: cfg.bind_mounts[next].src.clone(),
                            dst: cfg.bind_mounts[next].dst.clone(),
                        },
                        source: error,
                    },
                ),
            ),
        ),
        (ChildState::Chroot, ChildEvent::Succeeded) => (
            ChildState::Chdir,
            ChildAction::ChangeDirRoot,
        ),
        (ChildState::Chroot, ChildEvent::Failed { error }) => {
            let path = match &cfg.chroot_path {
                Some(p) => p.clone(),
                None => {
                    proof {
                        assert(false);
                    }
                    String::new()
                },
            };
            (
                ChildState::Finished,
                ChildAction::Finish(
                    Err(
                        IsolateError {
                            kind: IsolateErrorKind::ChrootFailed { path },
                            source: error,
                        },
                    ),
                ),
            )
        },
        (ChildState::Chdir, ChildEvent::Succeeded) => (
            ChildState::Finished,
            ChildAction::Finish(Ok(())),
        ),
        (ChildState::Chdir, ChildEvent::Failed { error }) => (
            ChildState::Finished,
            ChildAction::Finish(
                Err(IsolateError { kind: IsolateErrorKind::ChdirFailed, source: error }),
            ),
        ),
        (ChildState::Finished, _) => {
            proof {
                assert(false);
            }
            (ChildState::Finished, ChildAction::Finish(Ok(())))
        },
    }
}

/// Move past the bind mounts done so far: emit the next bind mount (after
/// validating its paths), else the chroot, else the successful end.
fn child_advance(cfg: &Isolator, i: usize) -> (r: (ChildState, ChildAction))
    requires
        i <= cfg.bind_mounts@.len(),
    ensures
        r == spec_child_advance(*cfg, i),
        child_state_wf(*cfg, r.0),
{
    if i < cfg.bind_mounts.len() {
        let b = &cfg.bind_mounts[i];
        if has_nul_exec(b.src.as_str()) {
            (
                ChildState::Finished,
                ChildAction::Finish(
                    Err(
                        IsolateError {
                            kind: IsolateErrorKind::InvalidSourcePath { path: b.src.clone() },
                            source: None,
                        },
                    ),
                ),
            )
        } else if has_nul_exec(b.dst.as_str()) {
            (
                ChildState::Finished,
                ChildAction::Finish(
                    Err(
                        IsolateError {
                            kind: IsolateErrorKind::InvalidDestinationPath {
                                path: b.dst.clone(),
                            },
                            source: None,
                        },
                    ),
                ),
            )
        } else {
            (
                ChildState::BindMounts { next: i },
                ChildAction::MountBind {
                    src: b.src.clone(),
                    dst: b.dst.clone(),
                    flags: bind_mount_flags(b.recursive),
                },
            )
        }
    } else {
        match &cfg.chroot_path {
            Some(path) => (ChildState::Chroot, ChildAction::ApplyChroot { path: path.clone() }),
            None => (ChildState::Finished, ChildAction::Finish(Ok(()))),
        }
    }
}

} // verus!
