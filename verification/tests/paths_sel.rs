use rugix_isolator::paths::{
    boot_dir, bundler_path, env_or_default, grub_binary_name, join_path, ovmf_code_path,
    pi_firmware_dir, repositories_dir, share_dir, shell_path, templates_dir, Architecture,
};

#[test]
fn grub_binaries_per_architecture() {
    assert_eq!(grub_binary_name(Architecture::Amd64), Some("BOOTX64.efi"));
    assert_eq!(grub_binary_name(Architecture::Arm64), Some("BOOTAA64.efi"));
    assert_eq!(grub_binary_name(Architecture::Armhf), None);
}

#[test]
fn environment_value_wins() {
    let r = env_or_default(Some("/env".to_string()), "/default", Some("/compile".to_string()));
    assert_eq!(r, "/env");
}

#[test]
fn compile_time_value_is_second() {
    let r = env_or_default(None, "/default", Some("/compile".to_string()));
    assert_eq!(r, "/compile");
}

#[test]
fn default_is_last() {
    let r = env_or_default(None, "/default", None);
    assert_eq!(r, "/default");
}

#[test]
fn share_dir_default() {
    assert_eq!(share_dir(None, None), "/usr/share/rugix");
}

#[test]
fn asset_directories_join_onto_share_dir() {
    assert_eq!(templates_dir("/usr/share/rugix"), "/usr/share/rugix/templates");
    assert_eq!(repositories_dir("/usr/share/rugix"), "/usr/share/rugix/repositories");
    assert_eq!(boot_dir("/usr/share/rugix"), "/usr/share/rugix/boot");
    assert_eq!(pi_firmware_dir("/usr/share/rugix"), "/usr/share/rugix/pi/firmware");
}

#[test]
fn join_handles_trailing_separator_and_empty_base() {
    assert_eq!(join_path("/a/", "b"), "/a/b");
    assert_eq!(join_path("/a", "b"), "/a/b");
    assert_eq!(join_path("", "b"), "b");
}

#[test]
fn bundler_default() {
    assert_eq!(bundler_path(None, None), "rugix-bundler");
}

#[test]
fn shell_prefers_override_then_login_shell() {
    assert_eq!(shell_path(Some("/bin/zsh".into()), Some("/bin/sh".into())), "/bin/zsh");
    assert_eq!(shell_path(None, Some("/bin/sh".into())), "/bin/sh");
    assert_eq!(shell_path(None, None), "/bin/bash");
}

#[test]
fn ovmf_defaults_per_architecture() {
    assert_eq!(
        ovmf_code_path(Architecture::Amd64, None, None, None, None),
        "/usr/share/OVMF/OVMF_CODE.fd"
    );
    assert_eq!(
        ovmf_code_path(Architecture::Arm64, None, None, None, None),
        "/usr/share/AAVMF/AAVMF_CODE.fd"
    );
    assert_eq!(ovmf_code_path(Architecture::Armv7, None, None, None, None), "");
}

#[test]
fn ovmf_respects_overrides() {
    assert_eq!(
        ovmf_code_path(Architecture::Amd64, Some("/custom.fd".into()), None, None, None),
        "/custom.fd"
    );
    assert_eq!(
        ovmf_code_path(Architecture::Arm64, None, None, None, Some("/ct.fd".into())),
        "/ct.fd"
    );
}
