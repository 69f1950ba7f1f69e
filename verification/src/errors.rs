//! The structured error of the isolator.
//!
//! Every failure the isolator can report is a distinct kind carrying the
//! values its description needs; an optional source string carries the
//! text of the underlying OS error.

use vstd::prelude::*;

use crate::maps::{proc_map_path, spec_proc_map_path, MapKind};
use crate::strutil::{fmt_i32, fmt_u32, spec_i32_digits, spec_u32_digits};

verus! {

/// What went wrong during an isolation attempt.
#[derive(Debug, Clone, PartialEq, Eq)]
pub enum IsolateErrorKind {
    /// The calling process has more than one thread.
    NotSingleThreaded,
    /// The thread count could not be determined.
    ThreadCountUnknown,
    /// The parent's own `uid_map`/`gid_map` could not be read.
    ParentMapReadFailed(MapKind),
    /// The barrier pipe could not be created.
    PipeCreationFailed,
    /// The `clone` call failed.
    CloneFailed,
    /// A pidfd could not be opened for the child (supervisor-fatal).
    PidfdOpenFailed,
    /// Writing the map file of the child with this PID failed.
    MapWriteFailed { kind: MapKind, pid: u32 },
    /// The username for the real UID could not be resolved.
    UsernameLookupFailed { uid: u32 },
    /// `/etc/subuid` (or `/etc/subgid`) could not be read.
    SubidParseFailed(MapKind),
    /// No subordinate entry was found for the real UID.
    SubidEntryMissing { kind: MapKind, uid: u32 },
    /// The `newuidmap`/`newgidmap` helper could not be executed.
    HelperInvocationFailed(MapKind),
    /// The helper ran but exited with a non-zero status.
    HelperExitNonZero { kind: MapKind, code: i32 },
    /// The child could not make `/` mount-private.
    MountPrivateFailed,
    /// A bind-mount source path holds an interior NUL byte.
    InvalidSourcePath { path: String },
    /// A bind-mount destination path holds an interior NUL byte.
    InvalidDestinationPath { path: String },
    /// A bind mount failed.
    BindMountFailed { src: String, dst: String },
    /// The chroot failed.
    ChrootFailed { path: String },
    /// Changing directory to `/` after the chroot failed.
    ChdirFailed,
    /// The child's wait on the barrier pipe failed.
    BarrierWaitFailed,
    /// Waiting on the child failed (supervisor-fatal).
    WaitChildFailed,
}

/// Error transferring the execution to an isolated child process.
#[derive(Debug, Clone, PartialEq, Eq)]
pub struct IsolateError {
    /// What went wrong.
    pub kind: IsolateErrorKind,
    /// The text of the underlying OS error, when there is one.
    pub source: Option<String>,
}

impl IsolateError {
    /// Create a new isolate error of the given kind, without a source.
    pub fn new(kind: IsolateErrorKind) -> (r: Self)
        ensures
            r.kind == kind,
            r.source is None,
    {
        IsolateError { kind, source: None }
    }

    /// Set the source error for this isolate error.
    pub fn with_source(self, source: String) -> (r: Self)
        ensures
            r.kind == self.kind,
            r.source == Some(source),
    {
        IsolateError { kind: self.kind, source: Some(source) }
    }

    /// The description of this error, without the source.
    pub fn message(&self) -> (r: String)
        ensures
            r@ == spec_error_message(self.kind),
    {
        match &self.kind {
            IsolateErrorKind::NotSingleThreaded => "process is multi-threaded".to_owned(),
            IsolateErrorKind::ThreadCountUnknown => "unable to determine thread count".to_owned(),
            IsolateErrorKind::ParentMapReadFailed(kind) => match kind {
                MapKind::Uid => "unable to read parent 'uid_map'".to_owned(),
                MapKind::Gid => "unable to read parent 'gid_map'".to_owned(),
            },
            IsolateErrorKind::PipeCreationFailed => "unable to create pipe".to_owned(),
            IsolateErrorKind::CloneFailed => "unable to clone process".to_owned(),
            IsolateErrorKind::PidfdOpenFailed => {
                "unable to open pidfd for child process".to_owned()
            },
            IsolateErrorKind::MapWriteFailed { kind, pid } => {
                let mut s = "failed to write ".to_owned();
                s.append(proc_map_path(*pid, *kind).as_str());
                s
            },
            IsolateErrorKind::UsernameLookupFailed { uid } => {
                let mut s = "unable to get username for uid ".to_owned();
                s.append(fmt_u32(*uid).as_str());
                s
            },
            IsolateErrorKind::SubidParseFailed(kind) => match kind {
                MapKind::Uid => "failed to parse '/etc/subuid'".to_owned(),
                MapKind::Gid => "failed to parse '/etc/subgid'".to_owned(),
            },
            IsolateErrorKind::SubidEntryMissing { kind, uid } => {
                let mut s = match kind {
                    MapKind::Uid => "no subuid entry found for uid ".to_owned(),
                    MapKind::Gid => "no subgid entry found for uid ".to_owned(),
                };
                s.append(fmt_u32(*uid).as_str());
                s
            },
            IsolateErrorKind::HelperInvocationFailed(kind) => match kind {
                MapKind::Uid => "failed to execute 'newuidmap'".to_owned(),
                MapKind::Gid => "failed to execute 'newgidmap'".to_owned(),
            },
            IsolateErrorKind::HelperExitNonZero { kind, code } => {
                let mut s = match kind {
                    MapKind::Uid => "'newuidmap' failed with exit code ".to_owned(),
                    MapKind::Gid => "newgidmap failed with exit code ".to_owned(),
                };
                s.append(fmt_i32(*code).as_str());
                s
            },
            IsolateErrorKind::MountPrivateFailed => "unable to make '/' private".to_owned(),
            IsolateErrorKind::InvalidSourcePath { path } => {
                let mut s = "invalid source path: '".to_owned();
                s.append(path.as_str());
                s.append("'");
                s
            },
            IsolateErrorKind::InvalidDestinationPath { path } => {
                let mut s = "invalid destination path: '".to_owned();
                s.append(path.as_str());
                s.append("'");
                s
            },
            IsolateErrorKind::BindMountFailed { src, dst } => {
                let mut s = "bind mount '".to_owned();
                s.append(src.as_str());
                s.append("' -> '");
                s.append(dst.as_str());
                s.append("' failed");
                s
            },
            IsolateErrorKind::ChrootFailed { path } => {
                let mut s = "unable to chroot to '".to_owned();
                s.append(path.as_str());
                s.append("'");
                s
            },
            IsolateErrorKind::ChdirFailed => {
                "unable to change directory to '/' after chroot".to_owned()
            },
            IsolateErrorKind::BarrierWaitFailed => "unable to wait for parent".to_owned(),
            IsolateErrorKind::WaitChildFailed => "unable to wait for child process".to_owned(),
        }
    }
}

/// The description of each error kind, mirroring the diagnostics the
/// isolator reports.
pub open spec fn spec_error_message(kind: IsolateErrorKind) -> Seq<char> {
    match kind {
        IsolateErrorKind::NotSingleThreaded => "process is multi-threaded"@,
        IsolateErrorKind::ThreadCountUnknown => "unable to determine thread count"@,
        IsolateErrorKind::ParentMapReadFailed(kind) => match kind {
            MapKind::Uid => "unable to read parent 'uid_map'"@,
            MapKind::Gid => "unable to read parent 'gid_map'"@,
        },
        IsolateErrorKind::PipeCreationFailed => "unable to create pipe"@,
        IsolateErrorKind::CloneFailed => "unable to clone process"@,
        IsolateErrorKind::PidfdOpenFailed => "unable to open pidfd for child process"@,
        IsolateErrorKind::MapWriteFailed { kind, pid } => "failed to write "@
            + spec_proc_map_path(pid as nat, kind),
        IsolateErrorKind::UsernameLookupFailed { uid } => "unable to get username for uid "@
            + spec_u32_digits(uid as nat),
        IsolateErrorKind::SubidParseFailed(kind) => match kind {
            MapKind::Uid => "failed to parse '/etc/subuid'"@,
            MapKind::Gid => "failed to parse '/etc/subgid'"@,
        },
        IsolateErrorKind::SubidEntryMissing { kind, uid } => (match kind {
            MapKind::Uid => "no subuid entry found for uid "@,
            MapKind::Gid => "no subgid entry found for uid "@,
        }) + spec_u32_digits(uid as nat),
        IsolateErrorKind::HelperInvocationFailed(kind) => match kind {
            MapKind::Uid => "failed to execute 'newuidmap'"@,
            MapKind::Gid => "failed to execute 'newgidmap'"@,
        },
        IsolateErrorKind::HelperExitNonZero { kind, code } => (match kind {
            MapKind::Uid => "'newuidmap' failed with exit code "@,
            MapKind::Gid => "newgidmap failed with exit code "@,
        }) + spec_i32_digits(code as int),
        IsolateErrorKind::MountPrivateFailed => "unable to make '/' private"@,
        IsolateErrorKind::InvalidSourcePath { path } => "invalid source path: '"@ + path@ + "'"@,
        IsolateErrorKind::InvalidDestinationPath { path } => "invalid destination path: '"@
            + path@ + "'"@,
        IsolateErrorKind::BindMountFailed { src, dst } => "bind mount '"@ + src@ + "' -> '"@
            + dst@ + "' failed"@,
        IsolateErrorKind::ChrootFailed { path } => "unable to chroot to '"@ + path@ + "'"@,
        IsolateErrorKind::ChdirFailed => "unable to change directory to '/' after chroot"@,
        IsolateErrorKind::BarrierWaitFailed => "unable to wait for parent"@,
        IsolateErrorKind::WaitChildFailed => "unable to wait for child process"@,
    }
}

} // verus!
