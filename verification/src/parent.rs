//! The parent-side supervision protocol, as a verified state machine.
//!
//! After the clone, the parent opens a pidfd on the child, writes the
//! child's `uid_map` and `gid_map` (falling back to the `newuidmap` and
//! `newgidmap` helpers when the direct write is refused), installs the
//! signal-forwarding handlers, releases the child by closing the barrier,
//! and waits for the child's exit. The machine decides each step; the
//! surrounding program performs the system call an action asks for and
//! feeds back its outcome. On a terminal setup failure the child is
//! killed and reaped before the error is surfaced.
//!
//! Two deliberate choices: only the `uid_map` write falls back to the
//! helpers, and only on `EPERM` — a refused `gid_map` write is terminal;
//! and the `gid_map` is written without touching `setgroups`, so the
//! direct path assumes a suitably privileged parent (the rootless case is
//! served by the helper path).

use vstd::prelude::*;

use crate::config::Isolator;
use crate::errors::{IsolateError, IsolateErrorKind};
use crate::sys::{CLONE_NEWNS, CLONE_NEWPID, CLONE_NEWUSER, clone_flags};
use crate::threads::{is_single_threaded, spec_single_threaded};
use crate::maps::{make_identity_map, proc_map_path, spec_identity_map, spec_proc_map_path, MapKind};
use crate::strutil::{fmt_u32, spec_u32_digits};
use crate::subid::{parse_subid_file, spec_parse_subid};
use crate::sys::{exit_code_for, forwarded_signals, spec_decode_wait_status, ChildExitReason,
    SIGHUP, SIGINT, SIGKILL, SIGQUIT, SIGTERM, SIGUSR1, SIGUSR2};
use crate::SubIdRange;

verus! {

/// What the parent knows from before the clone.
#[derive(Debug, Clone, PartialEq, Eq)]
pub struct ParentCtx {
    /// The child's process ID, as returned by the clone.
    pub child_pid: u32,
    /// The parent's own `uid_map` content, read before the clone.
    pub parent_uid_map: String,
    /// The parent's own `gid_map` content, read before the clone.
    pub parent_gid_map: String,
}

/// Parent-side protocol states.
#[derive(Debug, Clone, PartialEq, Eq)]
pub enum ParentState {
    /// Opening a pidfd on the child.
    OpeningPidfd,
    /// Writing the child's `uid_map` directly.
    WritingUidMap,
    /// Writing the child's `gid_map` directly.
    WritingGidMap,
    /// Helper fallback: reading the real user and group IDs.
    GettingRealIds,
    /// Helper fallback: resolving the username of the real UID.
    LookingUpUser { uid: u32, gid: u32 },
    /// Helper fallback: reading `/etc/subuid`.
    ReadingSubuid { uid: u32, gid: u32, username: String },
    /// Helper fallback: reading `/etc/subgid`.
    ReadingSubgid { uid: u32, gid: u32, username: String, subuid: SubIdRange },
    /// Helper fallback: `newuidmap` is running.
    RunningUidHelper { gid: u32, subgid: SubIdRange },
    /// Helper fallback: `newgidmap` is running.
    RunningGidHelper,
    /// Installing the signal-forwarding handlers.
    InstallingHandlers,
    /// Releasing the child by closing the barrier.
    ClosingBarrier,
    /// Waiting for the child to exit.
    Waiting,
    /// Cleanup: killing the child after a setup failure.
    KillingChild { error: IsolateError },
    /// Cleanup: reaping the killed child before surfacing the failure.
    ReapingChild { error: IsolateError },
    /// The protocol has ended; no further step is taken.
    Finished,
}

/// How the parent's protocol ends.
#[derive(Debug, Clone, PartialEq, Eq)]
pub enum ParentOutcome {
    /// Return this error to the caller.
    Fail(IsolateError),
    /// Exit the process with this status, derived from the child's exit.
    Exit { code: i32 },
    /// Report this error and exit the process with status 1; when cleanup
    /// itself failed too, its OS error text comes along.
    Fatal { error: IsolateError, cleanup: Option<String> },
}

/// What the surrounding program must do next on the parent side.
#[derive(Debug, Clone, PartialEq, Eq)]
pub enum ParentAction {
    /// `pidfd_open(pid, 0)`, storing the fd in the signal-handler cell.
    OpenPidfd { pid: u32 },
    /// Write `content` to the file at `path`.
    WriteMap { kind: MapKind, path: String, content: String },
    /// Read the real user and group IDs.
    ReadRealIds,
    /// Resolve the username of `uid` in the password database.
    LookupUser { uid: u32 },
    /// Read the subordinate ID file at `path`.
    ReadSubidFile { kind: MapKind, path: String },
    /// Run `program` with `args` and wait for its exit status.
    RunHelper { kind: MapKind, program: String, args: Vec<String> },
    /// Install the forwarding handlers for `signals`, in order.
    InstallHandlers { signals: Vec<i32> },
    /// Release the child: close the barrier pipe's write end.
    CloseBarrier,
    /// `waitpid` on the child, blocking.
    WaitChild { pid: u32 },
    /// Send `signal` to the child.
    KillChild { pid: u32, signal: i32 },
    /// The protocol ends with this outcome.
    Finish(ParentOutcome),
}

/// The outcome of the last action, reported back to the machine.
#[derive(Debug, Clone, PartialEq, Eq)]
pub enum ParentEvent {
    /// The pidfd open succeeded or failed (with the OS error text).
    Opened { ok: bool, error: Option<String> },
    /// The map write succeeded.
    Wrote,
    /// The map write failed; `eperm` says whether with `EPERM`.
    WriteFailed { eperm: bool, error: Option<String> },
    /// The real IDs.
    GotIds { uid: u32, gid: u32 },
    /// The username was found.
    UserFound { name: String },
    /// No user with the real UID exists in the password database.
    UserMissing,
    /// The subid file was read (or could not be: `None`).
    FileRead { content: Option<String> },
    /// The helper finished: whether it could be launched at all, whether
    /// it succeeded, and its exit code (-1 when killed by a signal).
    HelperFinished { launched: bool, success: bool, code: i32, error: Option<String> },
    /// The handlers are installed.
    Installed,
    /// The barrier write end is closed.
    Closed,
    /// `waitpid` returned this raw status.
    WaitStatus { status: u32 },
    /// `waitpid` itself failed.
    WaitFailed { error: Option<String> },
    /// The kill succeeded or failed (with the OS error text).
    Killed { ok: bool, error: Option<String> },
}

/// Which events can answer which states.
pub open spec fn parent_event_fits(state: ParentState, event: ParentEvent) -> bool {
    match state {
        ParentState::OpeningPidfd => event is Opened,
        ParentState::WritingUidMap => event is Wrote || event is WriteFailed,
        ParentState::WritingGidMap => event is Wrote || event is WriteFailed,
        ParentState::GettingRealIds => event is GotIds,
        ParentState::LookingUpUser { .. } => event is UserFound || event is UserMissing,
        ParentState::ReadingSubuid { .. } => event is FileRead,
        ParentState::ReadingSubgid { .. } => event is FileRead,
        ParentState::RunningUidHelper { .. } => event is HelperFinished,
        ParentState::RunningGidHelper => event is HelperFinished,
        ParentState::InstallingHandlers => event is Installed,
        ParentState::ClosingBarrier => event is Closed,
        ParentState::Waiting => event is WaitStatus || event is WaitFailed,
        ParentState::KillingChild { .. } => event is Killed,
        ParentState::ReapingChild { .. } => event is WaitStatus || event is WaitFailed,
        ParentState::Finished => false,
    }
}

/// The helper argument schema: `pid 0 id 1 1 start count`, each argument
/// in decimal.
pub open spec fn spec_helper_args(pid: u32, id: u32, sub: SubIdRange) -> Seq<Seq<char>> {
    seq![
        spec_u32_digits(pid as nat),
        seq!['0'],
        spec_u32_digits(id as nat),
        seq!['1'],
        seq!['1'],
        spec_u32_digits(sub.start as nat),
        spec_u32_digits(sub.count as nat),
    ]
}

/// Build the argument vector for `newuidmap`/`newgidmap`: it maps
/// container ID 0 to the real `id`, and container IDs starting at 1 to
/// the subordinate range.
pub fn helper_args(pid: u32, id: u32, sub: &SubIdRange) -> (r: Vec<String>)
    ensures
        r.deep_view() == spec_helper_args(pid, id, *sub),
{
    let mut v: Vec<String> = Vec::new();
    v.push(fmt_u32(pid));
    v.push("0".to_owned());
    v.push(fmt_u32(id));
    v.push("1".to_owned());
    v.push("1".to_owned());
    v.push(fmt_u32(sub.start));
    v.push(fmt_u32(sub.count));
    proof {
        reveal_strlit("0");
        reveal_strlit("1");
        assert("0"@ =~= seq!['0']);
        assert("1"@ =~= seq!['1']);
        assert(v.deep_view() =~~= spec_helper_args(pid, id, *sub));
    }
    v
}

/// Entering the cleanup path: the child is killed with `SIGKILL` and the
/// failure is remembered.
pub open spec fn starts_cleanup(
    ctx: ParentCtx,
    e: IsolateError,
    r: (ParentState, ParentAction),
) -> bool {
    r == (
        ParentState::KillingChild { error: e },
        ParentAction::KillChild { pid: ctx.child_pid, signal: SIGKILL },
    )
}

/// Asking for a map write: the path and content are exactly the map path
/// of the child and the identity transformation of the parent's map.
pub open spec fn asks_map_write(
    ctx: ParentCtx,
    kind: MapKind,
    parent_map: Seq<char>,
    r: (ParentState, ParentAction),
) -> bool {
    &&& r.1 matches ParentAction::WriteMap { kind: k, path, content }
    &&& k == kind
    &&& path@ == spec_proc_map_path(ctx.child_pid as nat, kind)
    &&& content@ == spec_identity_map(parent_map)
}

/// The transition relation of the parent machine: `r` is the pair of next
/// state and action that the step from `state` under `event` must yield.
pub open spec fn parent_step_ok(
    ctx: ParentCtx,
    state: ParentState,
    event: ParentEvent,
    r: (ParentState, ParentAction),
) -> bool {
    match (state, event) {
        (ParentState::OpeningPidfd, ParentEvent::Opened { ok, error }) => {
            if ok {
                &&& r.0 == ParentState::WritingUidMap
                &&& asks_map_write(ctx, MapKind::Uid, ctx.parent_uid_map@, r)
            } else {
                r == (
                    ParentState::Finished,
                    ParentAction::Finish(
                        ParentOutcome::Fatal {
                            error: IsolateError {
                                kind: IsolateErrorKind::PidfdOpenFailed,
                                source: error,
                            },
                            cleanup: None,
                        },
                    ),
                )
            }
        },
        (ParentState::WritingUidMap, ParentEvent::Wrote) => {
            &&& r.0 == ParentState::WritingGidMap
            &&& asks_map_write(ctx, MapKind::Gid, ctx.parent_gid_map@, r)
        },
        (ParentState::WritingUidMap, ParentEvent::WriteFailed { eperm, error }) => {
            if eperm {
                r == (ParentState::GettingRealIds, ParentAction::ReadRealIds)
            } else {
                starts_cleanup(
                    ctx,
                    IsolateError {
                        kind: IsolateErrorKind::MapWriteFailed {
                            kind: MapKind::Uid,
                            pid: ctx.child_pid,
                        },
                        source: error,
                    },
                    r,
                )
            }
        },
        (ParentState::WritingGidMap, ParentEvent::Wrote) => {
            &&& r.0 == ParentState::InstallingHandlers
            &&& r.1 matches ParentAction::InstallHandlers { signals }
            &&& signals@ == seq![SIGTERM, SIGINT, SIGHUP, SIGQUIT, SIGUSR1, SIGUSR2]
        },
        (ParentState::WritingGidMap, ParentEvent::WriteFailed { eperm, error }) => starts_cleanup(
            ctx,
            IsolateError {
                kind: IsolateErrorKind::MapWriteFailed { kind: MapKind::Gid, pid: ctx.child_pid },
                source: error,
            },
            r,
        ),
        (ParentState::GettingRealIds, ParentEvent::GotIds { uid, gid }) => r == (
            ParentState::LookingUpUser { uid, gid },
            ParentAction::LookupUser { uid },
        ),
        (ParentState::LookingUpUser { uid, gid }, ParentEvent::UserFound { name }) => {
            &&& r.0 == ParentState::ReadingSubuid { uid, gid, username: name }
            &&& r.1 matches ParentAction::ReadSubidFile { kind, path }
            &&& kind == MapKind::Uid
            &&& path@ == "/etc/subuid"@
        },
        (ParentState::LookingUpUser { uid, gid }, ParentEvent::UserMissing) => starts_cleanup(
            ctx,
            IsolateError {
                kind: IsolateErrorKind::UsernameLookupFailed { uid },
                source: None,
            },
            r,
        ),
        (ParentState::ReadingSubuid { uid, gid, username }, ParentEvent::FileRead { content }) => {
            match content {
                None => starts_cleanup(
                    ctx,
                    IsolateError {
                        kind: IsolateErrorKind::SubidParseFailed(MapKind::Uid),
                        source: None,
                    },
                    r,
                ),
                Some(text) => match spec_parse_subid(text@, username@) {
                    Some(subuid) => {
                        &&& r.0 == ParentState::ReadingSubgid { uid, gid, username, subuid }
                        &&& r.1 matches ParentAction::ReadSubidFile { kind, path }
                        &&& kind == MapKind::Gid
                        &&& path@ == "/etc/subgid"@
                    },
                    None => starts_cleanup(
                        ctx,
                        IsolateError {
                            kind: IsolateErrorKind::SubidEntryMissing { kind: MapKind::Uid, uid },
                            source: None,
                        },
                        r,
                    ),
                },
            }
        },
        (
            ParentState::ReadingSubgid { uid, gid, username, subuid },
            ParentEvent::FileRead { content },
        ) => {
            match content {
                None => starts_cleanup(
                    ctx,
                    IsolateError {
                        kind: IsolateErrorKind::SubidParseFailed(MapKind::Gid),
                        source: None,
                    },
                    r,
                ),
                Some(text) => match spec_parse_subid(text@, username@) {
                    Some(subgid) => {
                        &&& r.0 == ParentState::RunningUidHelper { gid, subgid }
                        &&& r.1 matches ParentAction::RunHelper { kind, program, args }
                        &&& kind == MapKind::Uid
                        &&& program@ == "newuidmap"@
                        &&& args.deep_view() == spec_helper_args(ctx.child_pid, uid, subuid)
                    },
                    None => starts_cleanup(
                        ctx,
                        IsolateError {
                            kind: IsolateErrorKind::SubidEntryMissing { kind: MapKind::Gid, uid },
                            source: None,
                        },
                        r,
                    ),
                },
            }
        },
        (
            ParentState::RunningUidHelper { gid, subgid },
            ParentEvent::HelperFinished { launched, success, code, error },
        ) => {
            if !launched {
                starts_cleanup(
                    ctx,
                    IsolateError {
                        kind: IsolateErrorKind::HelperInvocationFailed(MapKind::Uid),
                        source: error,
                    },
                    r,
                )
            } else if !success {
                starts_cleanup(
                    ctx,
                    IsolateError {
                        kind: IsolateErrorKind::HelperExitNonZero { kind: MapKind::Uid, code },
                        source: None,
                    },
                    r,
                )
            } else {
                &&& r.0 == ParentState::RunningGidHelper
                &&& r.1 matches ParentAction::RunHelper { kind, program, args }
                &&& kind == MapKind::Gid
                &&& program@ == "newgidmap"@
                &&& args.deep_view() == spec_helper_args(ctx.child_pid, gid, subgid)
            }
        },
        (
            ParentState::RunningGidHelper,
            ParentEvent::HelperFinished { launched, success, code, error },
        ) => {
            if !launched {
                starts_cleanup(
                    ctx,
                    IsolateError {
                        kind: IsolateErrorKind::HelperInvocationFailed(MapKind::Gid),
                        source: error,
                    },
                    r,
                )
            } else if !success {
                starts_cleanup(
                    ctx,
                    IsolateError {
                        kind: IsolateErrorKind::HelperExitNonZero { kind: MapKind::Gid, code },
                        source: None,
                    },
                    r,
                )
            } else {
                &&& r.0 == ParentState::InstallingHandlers
                &&& r.1 matches ParentAction::InstallHandlers { signals }
                &&& signals@ == seq![SIGTERM, SIGINT, SIGHUP, SIGQUIT, SIGUSR1, SIGUSR2]
            }
        },
        (ParentState::InstallingHandlers, ParentEvent::Installed) => r == (
            ParentState::ClosingBarrier,
            ParentAction::CloseBarrier,
        ),
        (ParentState::ClosingBarrier, ParentEvent::Closed) => r == (
            ParentState::Waiting,
            ParentAction::WaitChild { pid: ctx.child_pid },
        ),
        (ParentState::Waiting, ParentEvent::WaitStatus { status }) => {
            match spec_decode_wait_status(status) {
                Some(reason) => r == (
                    ParentState::Finished,
                    ParentAction::Finish(
                        ParentOutcome::Exit {
                            code: match reason {
                                ChildExitReason::Exited(code) => code,
                                ChildExitReason::Signaled(sig) => (128 + sig) as i32,
                            },
                        },
                    ),
                ),
                None => r == (
                    ParentState::Waiting,
                    ParentAction::WaitChild { pid: ctx.child_pid },
                ),
            }
        },
        (ParentState::Waiting, ParentEvent::WaitFailed { error }) => r == (
            ParentState::Finished,
            ParentAction::Finish(
                ParentOutcome::Fatal {
                    error: IsolateError {
                        kind: IsolateErrorKind::WaitChildFailed,
                        source: error,
                    },
                    cleanup: None,
                },
            ),
        ),
        (ParentState::KillingChild { error: e }, ParentEvent::Killed { ok, error }) => {
            if ok {
                r == (
                    ParentState::ReapingChild { error: e },
                    ParentAction::WaitChild { pid: ctx.child_pid },
                )
            } else {
                r == (
                    ParentState::Finished,
                    ParentAction::Finish(ParentOutcome::Fatal { error: e, cleanup: error }),
                )
            }
        },
        (ParentState::ReapingChild { error: e }, ParentEvent::WaitStatus { status }) => {
            match spec_decode_wait_status(status) {
                Some(reason) => r == (
                    ParentState::Finished,
                    ParentAction::Finish(ParentOutcome::Fail(e)),
                ),
                None => r == (
                    ParentState::ReapingChild { error: e },
                    ParentAction::WaitChild { pid: ctx.child_pid },
                ),
            }
        },
        (ParentState::ReapingChild { error: e }, ParentEvent::WaitFailed { error }) => r == (
            ParentState::Finished,
            ParentAction::Finish(
                ParentOutcome::Fatal {
                    error: IsolateError {
                        kind: IsolateErrorKind::WaitChildFailed,
                        source: error,
                    },
                    cleanup: None,
                },
            ),
        ),
        _ => false,
    }
}

/// Everything the clone call needs, assembled before any fork-like call.
#[derive(Debug, Clone, PartialEq, Eq)]
pub struct IsolationPlan {
    /// The clone flag word.
    pub clone_flags: u64,
    /// The parent's own `uid_map` content.
    pub parent_uid_map: String,
    /// The parent's own `gid_map` content.
    pub parent_gid_map: String,
}

/// Whether the pre-clone checks pass, and with which error they fail:
/// the process must provably be single-threaded (an unknown thread count
/// fails too), and both parent maps must have been read.
pub open spec fn spec_plan_verdict(
    thread_status: Option<String>,
    parent_uid_map: Option<String>,
    parent_gid_map: Option<String>,
) -> Result<(), IsolateErrorKind> {
    match thread_status {
        None => Err(IsolateErrorKind::ThreadCountUnknown),
        Some(status) => match spec_single_threaded(status@) {
            None => Err(IsolateErrorKind::ThreadCountUnknown),
            Some(false) => Err(IsolateErrorKind::NotSingleThreaded),
            Some(true) => match parent_uid_map {
                None => Err(IsolateErrorKind::ParentMapReadFailed(MapKind::Uid)),
                Some(_) => match parent_gid_map {
                    None => Err(IsolateErrorKind::ParentMapReadFailed(MapKind::Gid)),
                    Some(_) => Ok(()),
                },
            },
        },
    }
}

/// The pre-clone gate: decide from the configuration, the content of
/// `/proc/self/status`, and the parent's own map contents (each `None`
/// when its read failed) whether isolation may proceed, and with which
/// clone flags.
///
/// A multi-threaded caller is refused before any fork-like call, so no
/// child process is ever created for it; an undeterminable thread count
/// is refused as well.
pub fn plan_isolation(
    cfg: &Isolator,
    thread_status: Option<String>,
    parent_uid_map: Option<String>,
    parent_gid_map: Option<String>,
) -> (r: Result<IsolationPlan, IsolateError>)
    ensures
        match r {
            Ok(plan) => {
                &&& spec_plan_verdict(thread_status, parent_uid_map, parent_gid_map) is Ok
                &&& parent_uid_map matches Some(u) && plan.parent_uid_map == u
                &&& parent_gid_map matches Some(g) && plan.parent_gid_map == g
                &&& plan.clone_flags == if cfg.new_pid_namespace {
                    CLONE_NEWUSER | CLONE_NEWNS | crate::sys::SIGCHLD | CLONE_NEWPID
                } else {
                    CLONE_NEWUSER | CLONE_NEWNS | crate::sys::SIGCHLD
                }
            },
            Err(e) => {
                &&& spec_plan_verdict(thread_status, parent_uid_map, parent_gid_map)
                    == Err::<(), IsolateErrorKind>(e.kind)
                &&& e.source is None
            },
        },
{
    let single = match &thread_status {
        None => None,
        Some(status) => is_single_threaded(status.as_str()),
    };
    match single {
        None => Err(IsolateError::new(IsolateErrorKind::ThreadCountUnknown)),
        Some(false) => Err(IsolateError::new(IsolateErrorKind::NotSingleThreaded)),
        Some(true) => {
            match parent_uid_map {
                None => Err(
                    IsolateError::new(IsolateErrorKind::ParentMapReadFailed(MapKind::Uid)),
                ),
                Some(uid_map) => match parent_gid_map {
                    None => Err(
                        IsolateError::new(IsolateErrorKind::ParentMapReadFailed(MapKind::Gid)),
                    ),
                    Some(gid_map) => Ok(
                        IsolationPlan {
                            clone_flags: clone_flags(cfg.new_pid_namespace),
                            parent_uid_map: uid_map,
                            parent_gid_map: gid_map,
                        },
                    ),
                },
            }
        },
    }
}

/// A setup failure is returned to the caller only out of the reaping
/// state: whenever a step ends with `Fail`, the machine stood in
/// `ReapingChild` holding that same error, so the child was already
/// killed and has now been reaped — no zombie and no orphan remains.
pub proof fn lemma_error_surfaced_only_after_reap(
    ctx: ParentCtx,
    state: ParentState,
    event: ParentEvent,
    r: (ParentState, ParentAction),
    e: IsolateError,
)
    requires
        parent_event_fits(state, event),
        parent_step_ok(ctx, state, event, r),
        r.1 == ParentAction::Finish(ParentOutcome::Fail(e)),
    ensures
        (state matches ParentState::ReapingChild { error } && error == e),
{
}

/// The reaping state is entered only from the killing state after the
/// kill succeeded, and it carries the failure unchanged.
pub proof fn lemma_reap_follows_kill(
    ctx: ParentCtx,
    state: ParentState,
    event: ParentEvent,
    r: (ParentState, ParentAction),
    e: IsolateError,
)
    requires
        parent_event_fits(state, event),
        parent_step_ok(ctx, state, event, r),
        r.0 == (ParentState::ReapingChild { error: e }),
    ensures
        ((state matches ParentState::KillingChild { error } && error == e && (event matches
            ParentEvent::Killed { ok, error: kerr } && ok)) || state == (
        ParentState::ReapingChild { error: e })),
{
}

/// The signal handlers are installed only once both maps are in place:
/// either both direct writes succeeded, or the second helper finished
/// successfully.
pub proof fn lemma_handlers_only_after_maps(
    ctx: ParentCtx,
    state: ParentState,
    event: ParentEvent,
    r: (ParentState, ParentAction),
)
    requires
        parent_event_fits(state, event),
        parent_step_ok(ctx, state, event, r),
        (r.1 matches ParentAction::InstallHandlers { signals }),
    ensures
        ((state == ParentState::WritingGidMap && event is Wrote) || (state
            == ParentState::RunningGidHelper && (event matches ParentEvent::HelperFinished {
            launched,
            success,
            ..
        } && launched && success))),
{
}

/// The barrier is closed only right after the signal handlers were
/// installed: by the time the child can observe its namespace-privileged
/// state, every forwarded signal already reaches it.
pub proof fn lemma_release_only_after_handlers(
    ctx: ParentCtx,
    state: ParentState,
    event: ParentEvent,
    r: (ParentState, ParentAction),
)
    requires
        parent_event_fits(state, event),
        parent_step_ok(ctx, state, event, r),
        r.1 == ParentAction::CloseBarrier,
    ensures
        state == ParentState::InstallingHandlers,
        event is Installed,
{
}

/// The machine reaches the waiting state only through the barrier close
/// (or by staying in it): the parent commits to supervising before it
/// ever waits.
pub proof fn lemma_wait_follows_release(
    ctx: ParentCtx,
    state: ParentState,
    event: ParentEvent,
    r: (ParentState, ParentAction),
)
    requires
        parent_event_fits(state, event),
        parent_step_ok(ctx, state, event, r),
        r.0 == ParentState::Waiting,
    ensures
        state == ParentState::ClosingBarrier || state == ParentState::Waiting,
{
}

/// The parent machine's initial state and first action: open a pidfd on
/// the child before anything else, so that signal forwarding has a stable
/// handle.
pub fn parent_start(ctx: &ParentCtx) -> (r: (ParentState, ParentAction))
    ensures
        r == (ParentState::OpeningPidfd, ParentAction::OpenPidfd { pid: ctx.child_pid }),
{
    (ParentState::OpeningPidfd, ParentAction::OpenPidfd { pid: ctx.child_pid })
}

/// One step of the parent machine: from the current state and the outcome
/// of the last action, decide the next state and action.
pub fn parent_step(ctx: &ParentCtx, state: ParentState, event: ParentEvent) -> (r: (
    ParentState,
    ParentAction,
))
    requires
        parent_event_fits(state, event),
    ensures
        parent_step_ok(*ctx, state, event, r),
{
    match (state, event) {
        (ParentState::OpeningPidfd, ParentEvent::Opened { ok, error }) => {
            if ok {
                (
                    ParentState::WritingUidMap,
                    ParentAction::WriteMap {
                        kind: MapKind::Uid,
                        path: proc_map_path(ctx.child_pid, MapKind::Uid),
                        content: make_identity_map(ctx.parent_uid_map.as_str()),
                    },
                )
            } else {
                (
                    ParentState::Finished,
                    ParentAction::Finish(
                        ParentOutcome::Fatal {
                            error: IsolateError {
                                kind: IsolateErrorKind::PidfdOpenFailed,
                                source: error,
                            },
                            cleanup: None,
                        },
                    ),
                )
            }
        },
        (ParentState::WritingUidMap, ParentEvent::Wrote) => (
            ParentState::WritingGidMap,
            ParentAction::WriteMap {
                kind: MapKind::Gid,
                path: proc_map_path(ctx.child_pid, MapKind::Gid),
                content: make_identity_map(ctx.parent_gid_map.as_str()),
            },
        ),
        (ParentState::WritingUidMap, ParentEvent::WriteFailed { eperm, error }) => {
            if eperm {
                (ParentState::GettingRealIds, ParentAction::ReadRealIds)
            } else {
                (
                    ParentState::KillingChild {
                        error: IsolateError {
                            kind: IsolateErrorKind::MapWriteFailed {
                                kind: MapKind::Uid,
                                pid: ctx.child_pid,
                            },
                            source: error,
                        },
                    },
                    ParentAction::KillChild { pid: ctx.child_pid, signal: SIGKILL },
                )
            }
        },
        (ParentState::WritingGidMap, ParentEvent::Wrote) => (
            ParentState::InstallingHandlers,
            ParentAction::InstallHandlers { signals: forwarded_signals() },
        ),
        (ParentState::WritingGidMap, ParentEvent::WriteFailed { eperm: _, error }) => (
            ParentState::KillingChild {
                error: IsolateError {
                    kind: IsolateErrorKind::MapWriteFailed {
                        kind: MapKind::Gid,
                        pid: ctx.child_pid,
                    },
                    source: error,
                },
            },
            ParentAction::KillChild { pid: ctx.child_pid, signal: SIGKILL },
        ),
        (ParentState::GettingRealIds, ParentEvent::GotIds { uid, gid }) => (
            ParentState::LookingUpUser { uid, gid },
            ParentAction::LookupUser { uid },
        ),
        (ParentState::LookingUpUser { uid, gid }, ParentEvent::UserFound { name }) => (
            ParentState::ReadingSubuid { uid, gid, username: name },
            ParentAction::ReadSubidFile { kind: MapKind::Uid, path: "/etc/subuid".to_owned() },
        ),
        (ParentState::LookingUpUser { uid, gid }, ParentEvent::UserMissing) => (
            ParentState::KillingChild {
                error: IsolateError {
                    kind: IsolateErrorKind::UsernameLookupFailed { uid },
                    source: None,
                },
            },
            ParentAction::KillChild { pid: ctx.child_pid, signal: SIGKILL },
        ),
        (
            ParentState::ReadingSubuid { uid, gid, username },
            ParentEvent::FileRead { content },
        ) => {
            match content {
                None => (
                    ParentState::KillingChild {
                        error: IsolateError {
                            kind: IsolateErrorKind::SubidParseFailed(MapKind::Uid),
                            source: None,
                        },
                    },
                    ParentAction::KillChild { pid: ctx.child_pid, signal: SIGKILL },
                ),
                Some(text) => {
                    match parse_subid_file(text.as_str(), username.as_str()) {
                        Some(subuid) => (
                            ParentState::ReadingSubgid { uid, gid, username, subuid },
                            ParentAction::ReadSubidFile {
                                kind: MapKind::Gid,
                                path: "/etc/subgid".to_owned(),
                            },
                        ),
                        None => (
                            ParentState::KillingChild {
                                error: IsolateError {
                                    kind: IsolateErrorKind::SubidEntryMissing {
                                        kind: MapKind::Uid,
                                        uid,
                                    },
                                    source: None,
                                },
                            },
                            ParentAction::KillChild { pid: ctx.child_pid, signal: SIGKILL },
                        ),
                    }
                },
            }
        },
        (
            ParentState::ReadingSubgid { uid, gid, username, subuid },
            ParentEvent::FileRead { content },
        ) => {
            match content {
                None => (
                    ParentState::KillingChild {
                        error: IsolateError {
                            kind: IsolateErrorKind::SubidParseFailed(MapKind::Gid),
                            source: None,
                        },
                    },
                    ParentAction::KillChild { pid: ctx.child_pid, signal: SIGKILL },
                ),
                Some(text) => {
                    match parse_subid_file(text.as_str(), username.as_str()) {
                        Some(subgid) => (
                            ParentState::RunningUidHelper { gid, subgid },
                            ParentAction::RunHelper {
                                kind: MapKind::Uid,
                                program: "newuidmap".to_owned(),
                                args: helper_args(ctx.child_pid, uid, &subuid),
                            },
                        ),
                        None => (
                            ParentState::KillingChild {
                                error: IsolateError {
                                    kind: IsolateErrorKind::SubidEntryMissing {
                                        kind: MapKind::Gid,
                                        uid,
                                    },
                                    source: None,
                                },
                            },
                            ParentAction::KillChild { pid: ctx.child_pid, signal: SIGKILL },
                        ),
                    }
                },
            }
        },
        (
            ParentState::RunningUidHelper { gid, subgid },
            ParentEvent::HelperFinished { launched, success, code, error },
        ) => {
            if !launched {
                (
                    ParentState::KillingChild {
                        error: IsolateError {
                            kind: IsolateErrorKind::HelperInvocationFailed(MapKind::Uid),
                            source: error,
                        },
                    },
                    ParentAction::KillChild { pid: ctx.child_pid, signal: SIGKILL },
                )
            } else if !success {
                (
                    ParentState::KillingChild {
                        error: IsolateError {
                            kind: IsolateErrorKind::HelperExitNonZero {
                                kind: MapKind::Uid,
                                code,
                            },
                            source: None,
                        },
                    },
                    ParentAction::KillChild { pid: ctx.child_pid, signal: SIGKILL },
                )
            } else {
                (
                    ParentState::RunningGidHelper,
                    ParentAction::RunHelper {
                        kind: MapKind::Gid,
                        program: "newgidmap".to_owned(),
                        args: helper_args(ctx.child_pid, gid, &subgid),
                    },
                )
            }
        },
        (
            ParentState::RunningGidHelper,
            ParentEvent::HelperFinished { launched, success, code, error },
        ) => {
            if !launched {
                (
                    ParentState::KillingChild {
                        error: IsolateError {
                            kind: IsolateErrorKind::HelperInvocationFailed(MapKind::Gid),
                            source: error,
                        },
                    },
                    ParentAction::KillChild { pid: ctx.child_pid, signal: SIGKILL },
                )
            } else if !success {
                (
                    ParentState::KillingChild {
                        error: IsolateError {
                            kind: IsolateErrorKind::HelperExitNonZero {
                                kind: MapKind::Gid,
                                code,
                            },
                            source: None,
                        },
                    },
                    ParentAction::KillChild { pid: ctx.child_pid, signal: SIGKILL },
                )
            } else {
                (
                    ParentState::InstallingHandlers,
                    ParentAction::InstallHandlers { signals: forwarded_signals() },
                )
            }
        },
        (ParentState::InstallingHandlers, ParentEvent::Installed) => (
            ParentState::ClosingBarrier,
            ParentAction::CloseBarrier,
        ),
        (ParentState::ClosingBarrier, ParentEvent::Closed) => (
            ParentState::Waiting,
            ParentAction::WaitChild { pid: ctx.child_pid },
        ),
        (ParentState::Waiting, ParentEvent::WaitStatus { status }) => {
            proof {
                assert(status & 0x7f <= 0x7f) by (bit_vector);
            }
            match crate::sys::decode_wait_status(status) {
                Some(reason) => (
                    ParentState::Finished,
                    ParentAction::Finish(ParentOutcome::Exit { code: exit_code_for(reason) }),
                ),
                None => (ParentState::Waiting, ParentAction::WaitChild { pid: ctx.child_pid }),
            }
        },
        (ParentState::Waiting, ParentEvent::WaitFailed { error }) => (
            ParentState::Finished,
            ParentAction::Finish(
                ParentOutcome::Fatal {
                    error: IsolateError {
                        kind: IsolateErrorKind::WaitChildFailed,
                        source: error,
                    },
                    cleanup: None,
                },
            ),
        ),
        (ParentState::KillingChild { error: e }, ParentEvent::Killed { ok, error }) => {
            if ok {
                (
                    ParentState::ReapingChild { error: e },
                    ParentAction::WaitChild { pid: ctx.child_pid },
                )
            } else {
                (
                    ParentState::Finished,
                    ParentAction::Finish(ParentOutcome::Fatal { error: e, cleanup: error }),
                )
            }
        },
        (ParentState::ReapingChild { error: e }, ParentEvent::WaitStatus { status }) => {
            match crate::sys::decode_wait_status(status) {
                Some(_) => (
                    ParentState::Finished,
                    ParentAction::Finish(ParentOutcome::Fail(e)),
                ),
                None => (
                    ParentState::ReapingChild { error: e },
                    ParentAction::WaitChild { pid: ctx.child_pid },
                ),
            }
        },
        (ParentState::ReapingChild { error: _ }, ParentEvent::WaitFailed { error }) => (
            ParentState::Finished,
            ParentAction::Finish(
                ParentOutcome::Fatal {
                    error: IsolateError {
                        kind: IsolateErrorKind::WaitChildFailed,
                        source: error,
                    },
                    cleanup: None,
                },
            ),
        ),
        _ => {
            proof {
                assert(false);
            }
            (ParentState::Finished, ParentAction::CloseBarrier)
        },
    }
}

} // verus!
