//! The isolator configuration and its builders.

use vstd::prelude::*;

use crate::strutil::{upto, upto_exec, lemma_upto};

verus! {

/// A bind mount to set up in the isolated child.
#[derive(Debug, Clone, PartialEq, Eq)]
pub struct BindMount {
    /// Source path.
    pub src: String,
    /// Destination path; it must already exist in the child's view.
    pub dst: String,
    /// Whether the bind mount is applied recursively.
    pub recursive: bool,
}

/// Isolator for forking a process into an isolated environment.
#[derive(Debug, Clone, PartialEq, Eq)]
pub struct Isolator {
    /// Bind mounts, established in this order.
    pub bind_mounts: Vec<BindMount>,
    /// Optional chroot target, applied after the bind mounts.
    pub chroot_path: Option<String>,
    /// Whether to create a new PID namespace as well.
    pub new_pid_namespace: bool,
}

impl Isolator {
    /// Create a new isolator with default settings: no bind mounts, no
    /// chroot, no new PID namespace.
    pub fn new() -> (r: Self)
        ensures
            r.bind_mounts@ == Seq::<BindMount>::empty(),
            r.chroot_path is None,
            r.new_pid_namespace == false,
    {
        Isolator { bind_mounts: Vec::new(), chroot_path: None, new_pid_namespace: false }
    }

    /// Add a bind mount to set up in the isolated child.
    ///
    /// The mount is created after the mount namespace is set up but before
    /// chroot (if configured).
    pub fn with_bind_mount(self, src: String, dst: String) -> (r: Self)
        ensures
            r.bind_mounts@ == self.bind_mounts@.push(BindMount { src, dst, recursive: false }),
            r.chroot_path == self.chroot_path,
            r.new_pid_namespace == self.new_pid_namespace,
    {
        let mut next = self;
        next.bind_mounts.push(BindMount { src, dst, recursive: false });
        next
    }

    /// Add a recursive bind mount to set up in the isolated child.
    ///
    /// The mount is created after the mount namespace is set up but before
    /// chroot (if configured).
    pub fn with_recursive_bind_mount(self, src: String, dst: String) -> (r: Self)
        ensures
            r.bind_mounts@ == self.bind_mounts@.push(BindMount { src, dst, recursive: true }),
            r.chroot_path == self.chroot_path,
            r.new_pid_namespace == self.new_pid_namespace,
    {
        let mut next = self;
        next.bind_mounts.push(BindMount { src, dst, recursive: true });
        next
    }

    /// Set a chroot path for the isolated child.
    ///
    /// After bind mounts are set up, the child will chroot to this path.
    pub fn with_chroot(self, path: String) -> (r: Self)
        ensures
            r.bind_mounts@ == self.bind_mounts@,
            r.chroot_path == Some(path),
            r.new_pid_namespace == self.new_pid_namespace,
    {
        let mut next = self;
        next.chroot_path = Some(path);
        next
    }

    /// Spawn the child in a new PID namespace.
    pub fn with_new_pid_namespace(self) -> (r: Self)
        ensures
            r.bind_mounts@ == self.bind_mounts@,
            r.chroot_path == self.chroot_path,
            r.new_pid_namespace == true,
    {
        let mut next = self;
        next.new_pid_namespace = true;
        next
    }
}

/// The command-line surface of the isolator driver.
#[derive(Debug, Clone, PartialEq, Eq)]
pub struct Args {
    /// Bind mount specifications, each in the form `src:dst`.
    pub bind_mounts: Vec<String>,
    /// Recursive bind mount specifications, each in the form `src:dst`.
    pub recursive_bind_mounts: Vec<String>,
    /// Optional chroot target.
    pub chroot: Option<String>,
    /// Whether to create a new PID namespace.
    pub pid_namespace: bool,
    /// The command to execute after isolation.
    pub command: Vec<String>,
}

/// What parsing a `src:dst` specification yields: the pieces before and
/// after the first colon, or the error message for a spec with no colon.
pub open spec fn spec_parse_bind_mount(s: Seq<char>) -> Result<(Seq<char>, Seq<char>), Seq<char>> {
    let n = upto(s, ':');
    if n == s.len() {
        Err("invalid bind mount specification '"@ + s + "': expected format 'src:dst'"@)
    } else {
        Ok((s.subrange(0, n), s.subrange(n + 1, s.len() as int)))
    }
}

/// Parse a bind mount specification in the format `src:dst`.
pub fn parse_bind_mount(text: &str) -> (r: Result<(String, String), String>)
    ensures
        match r {
            Ok(pair) => spec_parse_bind_mount(text@) == Ok::<_, Seq<char>>(
                (pair.0@, pair.1@),
            ),
            Err(e) => spec_parse_bind_mount(text@) == Err::<(Seq<char>, Seq<char>), _>(e@),
        },
{
    proof {
        lemma_upto(text@, ':');
    }
    let len: usize = text.unicode_len();
    let n: usize = upto_exec(text, ':');
    if n == len {
        let mut msg = "invalid bind mount specification '".to_owned();
        msg.append(text);
        msg.append("': expected format 'src:dst'");
        Err(msg)
    } else {
        let src = text.substring_char(0, n).to_owned();
        let dst = text.substring_char(n + 1, len).to_owned();
        Ok((src, dst))
    }
}

/// Whether `b` is the bind mount that the raw specification `raw` denotes,
/// with the given recursiveness.
pub open spec fn bind_matches(raw: Seq<char>, b: BindMount, recursive: bool) -> bool {
    &&& spec_parse_bind_mount(raw) matches Ok(pair)
    &&& b.src@ == pair.0
    &&& b.dst@ == pair.1
    &&& b.recursive == recursive
}

/// The error message of the first specification in `specs` that does not
/// parse, when there is one.
pub open spec fn spec_first_bind_err(specs: Seq<Seq<char>>) -> Option<Seq<char>>
    decreases specs.len(),
{
    if specs.len() == 0 {
        None
    } else {
        match spec_parse_bind_mount(specs[0]) {
            Err(e) => Some(e),
            Ok(_) => spec_first_bind_err(specs.drop_first()),
        }
    }
}

/// When every specification parses, there is no first error.
proof fn lemma_first_bind_err_none(specs: Seq<Seq<char>>)
    requires
        forall|j: int| 0 <= j < specs.len() ==> #[trigger] spec_parse_bind_mount(specs[j]) is Ok,
    ensures
        spec_first_bind_err(specs) is None,
    decreases specs.len(),
{
    if specs.len() > 0 {
        assert(spec_parse_bind_mount(specs[0]) is Ok);
        assert forall|j: int|
            0 <= j < specs.drop_first().len() implies #[trigger] spec_parse_bind_mount(
            specs.drop_first()[j],
        ) is Ok by {
            assert(specs.drop_first()[j] == specs[j + 1]);
        }
        lemma_first_bind_err_none(specs.drop_first());
    }
}

/// The first specification that does not parse provides the first error.
proof fn lemma_first_bind_err_at(specs: Seq<Seq<char>>, k: int, e: Seq<char>)
    requires
        0 <= k < specs.len(),
        spec_parse_bind_mount(specs[k]) == Err::<(Seq<char>, Seq<char>), _>(e),
        forall|j: int| 0 <= j < k ==> #[trigger] spec_parse_bind_mount(specs[j]) is Ok,
    ensures
        spec_first_bind_err(specs) == Some(e),
    decreases k,
{
    if k == 0 {
    } else {
        assert(spec_parse_bind_mount(specs[0]) is Ok);
        assert(specs.drop_first()[k - 1] == specs[k]);
        assert forall|j: int|
            0 <= j < k - 1 implies #[trigger] spec_parse_bind_mount(
            specs.drop_first()[j],
        ) is Ok by {
            assert(specs.drop_first()[j] == specs[j + 1]);
        }
        lemma_first_bind_err_at(specs.drop_first(), k - 1, e);
    }
}

/// Build an isolator from parsed command-line arguments.
///
/// Every `src:dst` specification must parse; the plain bind mounts come
/// first, then the recursive ones, each list in its given order; the
/// chroot and PID namespace options are taken over as they are. The first
/// specification without a colon fails the build with its message.
pub fn run(args: &Args) -> (r: Result<Isolator, String>)
    ensures
        match r {
            Ok(iso) => {
                &&& spec_first_bind_err(args.bind_mounts.deep_view()) is None
                &&& spec_first_bind_err(args.recursive_bind_mounts.deep_view()) is None
                &&& iso.bind_mounts@.len() == args.bind_mounts@.len()
                    + args.recursive_bind_mounts@.len()
                &&& forall|i: int|
                    0 <= i < args.bind_mounts@.len() ==> bind_matches(
                        args.bind_mounts.deep_view()[i],
                        #[trigger] iso.bind_mounts@[i],
                        false,
                    )
                &&& forall|i: int|
                    args.bind_mounts@.len() <= i < iso.bind_mounts@.len() ==> bind_matches(
                        args.recursive_bind_mounts.deep_view()[i - args.bind_mounts@.len()],
                        #[trigger] iso.bind_mounts@[i],
                        true,
                    )
                &&& iso.chroot_path.deep_view() == args.chroot.deep_view()
                &&& iso.new_pid_namespace == args.pid_namespace
            },
            Err(e) => {
                ||| spec_first_bind_err(args.bind_mounts.deep_view()) == Some(e@)
                ||| (spec_first_bind_err(args.bind_mounts.deep_view()) is None
                    && spec_first_bind_err(args.recursive_bind_mounts.deep_view()) == Some(e@))
            },
        },
{
    let mut iso = Isolator::new();
    let mut i: usize = 0;
    while i < args.bind_mounts.len()
        invariant
            0 <= i <= args.bind_mounts@.len(),
            iso.bind_mounts@.len() == i,
            forall|j: int|
                0 <= j < i ==> bind_matches(
                    args.bind_mounts.deep_view()[j],
                    #[trigger] iso.bind_mounts@[j],
                    false,
                ),
            forall|j: int|
                0 <= j < i ==> #[trigger] spec_parse_bind_mount(
                    args.bind_mounts.deep_view()[j],
                ) is Ok,
            iso.chroot_path is None,
            iso.new_pid_namespace == false,
        decreases args.bind_mounts@.len() - i,
    {
        match parse_bind_mount(args.bind_mounts[i].as_str()) {
            Ok(pair) => {
                iso = iso.with_bind_mount(pair.0, pair.1);
            },
            Err(e) => {
                proof {
                    lemma_first_bind_err_at(args.bind_mounts.deep_view(), i as int, e@);
                }
                return Err(e);
            },
        }
        i = i + 1;
    }
    proof {
        lemma_first_bind_err_none(args.bind_mounts.deep_view());
    }
    let ghost n1 = args.bind_mounts@.len();
    let mut k: usize = 0;
    while k < args.recursive_bind_mounts.len()
        invariant
            0 <= k <= args.recursive_bind_mounts@.len(),
            n1 == args.bind_mounts@.len(),
            iso.bind_mounts@.len() == n1 + k,
            forall|j: int|
                0 <= j < n1 ==> bind_matches(
                    args.bind_mounts.deep_view()[j],
                    #[trigger] iso.bind_mounts@[j],
                    false,
                ),
            forall|j: int|
                n1 <= j < n1 + k ==> bind_matches(
                    args.recursive_bind_mounts.deep_view()[j - n1],
                    #[trigger] iso.bind_mounts@[j],
                    true,
                ),
            forall|j: int|
                0 <= j < k ==> #[trigger] spec_parse_bind_mount(
                    args.recursive_bind_mounts.deep_view()[j],
                ) is Ok,
            spec_first_bind_err(args.bind_mounts.deep_view()) is None,
            iso.chroot_path is None,
            iso.new_pid_namespace == false,
        decreases args.recursive_bind_mounts@.len() - k,
    {
        match parse_bind_mount(args.recursive_bind_mounts[k].as_str()) {
            Ok(pair) => {
                iso = iso.with_recursive_bind_mount(pair.0, pair.1);
            },
            Err(e) => {
                proof {
                    lemma_first_bind_err_at(
                        args.recursive_bind_mounts.deep_view(),
                        k as int,
                        e@,
                    );
                }
                return Err(e);
            },
        }
        k = k + 1;
    }
    proof {
        lemma_first_bind_err_none(args.recursive_bind_mounts.deep_view());
    }
    match &args.chroot {
        Some(path) => {
            iso = iso.with_chroot(path.clone());
        },
        None => {},
    }
    if args.pid_namespace {
        iso = iso.with_new_pid_namespace();
    }
    Ok(iso)
}

} // verus!
