use rugix_isolator::{parse_bind_mount, run, Args, Isolator};

#[test]
fn new_isolator_has_defaults() {
    let iso = Isolator::new();
    assert!(iso.bind_mounts.is_empty());
    assert!(iso.chroot_path.is_none());
    assert!(!iso.new_pid_namespace);
}

#[test]
fn builders_accumulate() {
    let iso = Isolator::new()
        .with_bind_mount("/a".to_string(), "/b".to_string())
        .with_recursive_bind_mount("/c".to_string(), "/d".to_string())
        .with_chroot("/root-dir".to_string())
        .with_new_pid_namespace();
    assert_eq!(iso.bind_mounts.len(), 2);
    assert_eq!(iso.bind_mounts[0].src, "/a");
    assert_eq!(iso.bind_mounts[0].dst, "/b");
    assert!(!iso.bind_mounts[0].recursive);
    assert_eq!(iso.bind_mounts[1].src, "/c");
    assert_eq!(iso.bind_mounts[1].dst, "/d");
    assert!(iso.bind_mounts[1].recursive);
    assert_eq!(iso.chroot_path.as_deref(), Some("/root-dir"));
    assert!(iso.new_pid_namespace);
}

#[test]
fn parse_bind_mount_splits_at_first_colon() {
    assert_eq!(parse_bind_mount("a:b"), Ok(("a".to_string(), "b".to_string())));
    assert_eq!(parse_bind_mount("a:b:c"), Ok(("a".to_string(), "b:c".to_string())));
    assert_eq!(parse_bind_mount(":x"), Ok(("".to_string(), "x".to_string())));
}

#[test]
fn parse_bind_mount_rejects_missing_colon() {
    let err = parse_bind_mount("ab").unwrap_err();
    assert_eq!(err, "invalid bind mount specification 'ab': expected format 'src:dst'");
}

#[test]
fn run_builds_isolator_in_order() {
    let args = Args {
        bind_mounts: vec!["/host/data:/tmp/root/data".to_string()],
        recursive_bind_mounts: vec!["/dev:/tmp/root/dev".to_string()],
        chroot: Some("/tmp/root".to_string()),
        pid_namespace: true,
        command: vec!["ls".to_string()],
    };
    let iso = run(&args).unwrap();
    assert_eq!(iso.bind_mounts.len(), 2);
    assert_eq!(iso.bind_mounts[0].src, "/host/data");
    assert_eq!(iso.bind_mounts[0].dst, "/tmp/root/data");
    assert!(!iso.bind_mounts[0].recursive);
    assert_eq!(iso.bind_mounts[1].src, "/dev");
    assert_eq!(iso.bind_mounts[1].dst, "/tmp/root/dev");
    assert!(iso.bind_mounts[1].recursive);
    assert_eq!(iso.chroot_path.as_deref(), Some("/tmp/root"));
    assert!(iso.new_pid_namespace);
}

#[test]
fn run_reports_first_bad_specification() {
    let args = Args {
        bind_mounts: vec!["ok:fine".to_string(), "broken".to_string()],
        recursive_bind_mounts: vec![],
        chroot: None,
        pid_namespace: false,
        command: vec![],
    };
    let err = run(&args).unwrap_err();
    assert_eq!(err, "invalid bind mount specification 'broken': expected format 'src:dst'");
}
