//! Resolution of the host-side tool and asset paths.
//!
//! Each location is chosen from an environment override, then a
//! compile-time override, then a built-in default. The surrounding
//! program reads the environment and passes the override values in;
//! the choice itself is decided here.

use vstd::prelude::*;

verus! {

/// A target architecture of the build tooling.
#[derive(Clone, Copy, PartialEq, Eq, Structural, Debug)]
pub enum Architecture {
    /// 64-bit x86.
    Amd64,
    /// 64-bit ARM.
    Arm64,
    /// 32-bit ARM, v7 with hard float.
    Armv7,
    /// 32-bit ARM, v6 with hard float.
    Armhf,
    /// 32-bit ARM, software float.
    Arm,
}

/// The choice rule: the environment value wins, then the compile-time
/// value, then the default.
pub open spec fn spec_env_or_default(
    env_value: Option<String>,
    default: Seq<char>,
    compile_time: Option<String>,
) -> Seq<char> {
    match env_value {
        Some(v) => v@,
        None => match compile_time {
            Some(c) => c@,
            None => default,
        },
    }
}

/// Choose the environment value, else the compile-time value, else the
/// default.
pub fn env_or_default(env_value: Option<String>, default: &str, compile_time: Option<String>) -> (r:
    String)
    ensures
        r@ == spec_env_or_default(env_value, default@, compile_time),
{
    match env_value {
        Some(v) => v,
        None => match compile_time {
            Some(c) => c,
            None => default.to_owned(),
        },
    }
}

/// Joining a relative component onto a path, as `Path::join` does for a
/// relative right-hand side.
pub open spec fn spec_join(base: Seq<char>, rel: Seq<char>) -> Seq<char> {
    if base.len() == 0 {
        rel
    } else if base[base.len() - 1] == '/' {
        base + rel
    } else {
        base + seq!['/'] + rel
    }
}

/// Join a relative component onto a path.
pub fn join_path(base: &str, rel: &str) -> (r: String)
    ensures
        r@ == spec_join(base@, rel@),
{
    let len: usize = base.unicode_len();
    if len == 0 {
        rel.to_owned()
    } else if base.get_char(len - 1) == '/' {
        let mut s = base.to_owned();
        s.append(rel);
        s
    } else {
        let mut s = base.to_owned();
        s.append("/");
        s.append(rel);
        proof {
            reveal_strlit("/");
            assert(s@ =~= base@ + seq!['/'] + rel@);
        }
        s
    }
}

/// Base directory that contains the shared assets (boot files, templates,
/// repositories); overridable by environment or at compile time.
pub fn share_dir(env_value: Option<String>, compile_time: Option<String>) -> (r: String)
    ensures
        r@ == spec_env_or_default(env_value, "/usr/share/rugix"@, compile_time),
{
    env_or_default(env_value, "/usr/share/rugix", compile_time)
}

/// Directory with project templates.
pub fn templates_dir(share_dir: &str) -> (r: String)
    ensures
        r@ == spec_join(share_dir@, "templates"@),
{
    join_path(share_dir, "templates")
}

/// Directory with bundled repositories.
pub fn repositories_dir(share_dir: &str) -> (r: String)
    ensures
        r@ == spec_join(share_dir@, "repositories"@),
{
    join_path(share_dir, "repositories")
}

/// Directory with boot assets.
pub fn boot_dir(share_dir: &str) -> (r: String)
    ensures
        r@ == spec_join(share_dir@, "boot"@),
{
    join_path(share_dir, "boot")
}

/// Directory with Raspberry Pi firmware.
pub fn pi_firmware_dir(share_dir: &str) -> (r: String)
    ensures
        r@ == spec_join(spec_join(share_dir@, "pi"@), "firmware"@),
{
    let pi = join_path(share_dir, "pi");
    join_path(pi.as_str(), "firmware")
}

/// Path (or name) of the bundler executable; overridable by environment
/// or at compile time.
pub fn bundler_path(env_value: Option<String>, compile_time: Option<String>) -> (r: String)
    ensures
        r@ == spec_env_or_default(env_value, "rugix-bundler"@, compile_time),
{
    env_or_default(env_value, "rugix-bundler", compile_time)
}

/// Path (or name) of the shell to spawn: the dedicated override, else the
/// login shell, else `/bin/bash`.
pub fn shell_path(override_value: Option<String>, login_shell: Option<String>) -> (r: String)
    ensures
        r@ == match override_value {
            Some(v) => v@,
            None => match login_shell {
                Some(s) => s@,
                None => "/bin/bash"@,
            },
        },
{
    match override_value {
        Some(v) => v,
        None => match login_shell {
            Some(s) => s,
            None => "/bin/bash".to_owned(),
        },
    }
}

/// The Grub EFI boot binary for an architecture, when Grub supports it.
pub fn grub_binary_name(arch: Architecture) -> (r: Option<&'static str>)
    ensures
        match arch {
            Architecture::Arm64 => (r matches Some(s) && s@ == "BOOTAA64.efi"@),
            Architecture::Amd64 => (r matches Some(s) && s@ == "BOOTX64.efi"@),
            _ => r is None,
        },
{
    match arch {
        Architecture::Arm64 => Some("BOOTAA64.efi"),
        Architecture::Amd64 => Some("BOOTX64.efi"),
        _ => None,
    }
}

/// Path to the UEFI firmware used by emulator tests: per architecture,
/// overridable by environment or at compile time; empty for
/// architectures without one.
pub fn ovmf_code_path(
    arch: Architecture,
    env_amd64: Option<String>,
    compile_amd64: Option<String>,
    env_arm64: Option<String>,
    compile_arm64: Option<String>,
) -> (r: String)
    ensures
        r@ == match arch {
            Architecture::Amd64 => spec_env_or_default(
                env_amd64,
                "/usr/share/OVMF/OVMF_CODE.fd"@,
                compile_amd64,
            ),
            Architecture::Arm64 => spec_env_or_default(
                env_arm64,
                "/usr/share/AAVMF/AAVMF_CODE.fd"@,
                compile_arm64,
            ),
            _ => ""@,
        },
{
    match arch {
        Architecture::Amd64 => env_or_default(
            env_amd64,
            "/usr/share/OVMF/OVMF_CODE.fd",
            compile_amd64,
        ),
        Architecture::Arm64 => env_or_default(
            env_arm64,
            "/usr/share/AAVMF/AAVMF_CODE.fd",
            compile_arm64,
        ),
        _ => "".to_owned(),
    }
}

} // verus!
