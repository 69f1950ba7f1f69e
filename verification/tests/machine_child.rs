use rugix_isolator::child::{child_start, child_step, ChildAction, ChildEvent, ChildState};
use rugix_isolator::{Isolator, IsolateErrorKind};

#[test]
fn trivial_setup_only_waits_and_unshares_propagation() {
    let cfg = Isolator::new();
    let (state, action) = child_start();
    assert_eq!(action, ChildAction::ReadBarrier);

    let (state, action) = child_step(&cfg, state, ChildEvent::Succeeded);
    assert_eq!(
        action,
        ChildAction::MakeMountPrivate { flags: (libc::MS_REC | libc::MS_PRIVATE) as u64 }
    );

    let (_, action) = child_step(&cfg, state, ChildEvent::Succeeded);
    assert_eq!(action, ChildAction::Finish(Ok(())));
}

#[test]
fn chroot_only_setup() {
    let cfg = Isolator::new().with_chroot("/tmp/root".to_string());
    let (state, _) = child_start();
    let (state, _) = child_step(&cfg, state, ChildEvent::Succeeded);
    let (state, action) = child_step(&cfg, state, ChildEvent::Succeeded);
    assert_eq!(action, ChildAction::ApplyChroot { path: "/tmp/root".to_string() });
    let (state, action) = child_step(&cfg, state, ChildEvent::Succeeded);
    assert_eq!(action, ChildAction::ChangeDirRoot);
    let (_, action) = child_step(&cfg, state, ChildEvent::Succeeded);
    assert_eq!(action, ChildAction::Finish(Ok(())));
}

#[test]
fn bind_mount_then_chroot() {
    let cfg = Isolator::new()
        .with_bind_mount("/host/data".to_string(), "/tmp/root/data".to_string())
        .with_chroot("/tmp/root".to_string());
    let (state, _) = child_start();
    let (state, _) = child_step(&cfg, state, ChildEvent::Succeeded);
    let (state, action) = child_step(&cfg, state, ChildEvent::Succeeded);
    assert_eq!(
        action,
        ChildAction::MountBind {
            src: "/host/data".to_string(),
            dst: "/tmp/root/data".to_string(),
            flags: libc::MS_BIND as u64,
        }
    );
    let (state, action) = child_step(&cfg, state, ChildEvent::Succeeded);
    assert_eq!(action, ChildAction::ApplyChroot { path: "/tmp/root".to_string() });
    let (state, action) = child_step(&cfg, state, ChildEvent::Succeeded);
    assert_eq!(action, ChildAction::ChangeDirRoot);
    let (_, action) = child_step(&cfg, state, ChildEvent::Succeeded);
    assert_eq!(action, ChildAction::Finish(Ok(())));
}

#[test]
fn bind_mounts_keep_their_order() {
    let cfg = Isolator::new()
        .with_bind_mount("A".to_string(), "/x".to_string())
        .with_bind_mount("B".to_string(), "/x/sub".to_string());
    let (state, _) = child_start();
    let (state, _) = child_step(&cfg, state, ChildEvent::Succeeded);
    let (state, action) = child_step(&cfg, state, ChildEvent::Succeeded);
    assert_eq!(
        action,
        ChildAction::MountBind {
            src: "A".to_string(),
            dst: "/x".to_string(),
            flags: libc::MS_BIND as u64,
        }
    );
    let (_, action) = child_step(&cfg, state, ChildEvent::Succeeded);
    assert_eq!(
        action,
        ChildAction::MountBind {
            src: "B".to_string(),
            dst: "/x/sub".to_string(),
            flags: libc::MS_BIND as u64,
        }
    );
}

#[test]
fn recursive_bind_mount_sets_rec_flag() {
    let cfg = Isolator::new().with_recursive_bind_mount("/dev".to_string(), "/r/dev".to_string());
    let (state, _) = child_start();
    let (state, _) = child_step(&cfg, state, ChildEvent::Succeeded);
    let (_, action) = child_step(&cfg, state, ChildEvent::Succeeded);
    assert_eq!(
        action,
        ChildAction::MountBind {
            src: "/dev".to_string(),
            dst: "/r/dev".to_string(),
            flags: (libc::MS_BIND | libc::MS_REC) as u64,
        }
    );
}

#[test]
fn failed_barrier_read_fails_closed() {
    let cfg = Isolator::new();
    let (state, _) = child_start();
    let (state, action) = child_step(
        &cfg,
        state,
        ChildEvent::Failed { error: Some("EIO".to_string()) },
    );
    assert_eq!(state, ChildState::Finished);
    match action {
        ChildAction::Finish(Err(err)) => {
            assert_eq!(err.kind, IsolateErrorKind::BarrierWaitFailed);
            assert_eq!(err.source.as_deref(), Some("EIO"));
        },
        other => panic!("expected a terminal error, got {:?}", other),
    }
}

#[test]
fn failed_bind_mount_reports_the_pair() {
    let cfg = Isolator::new().with_bind_mount("/a".to_string(), "/b".to_string());
    let (state, _) = child_start();
    let (state, _) = child_step(&cfg, state, ChildEvent::Succeeded);
    let (state, _) = child_step(&cfg, state, ChildEvent::Succeeded);
    let (_, action) = child_step(
        &cfg,
        state,
        ChildEvent::Failed { error: Some("ENOENT".to_string()) },
    );
    match action {
        ChildAction::Finish(Err(err)) => {
            assert_eq!(
                err.kind,
                IsolateErrorKind::BindMountFailed { src: "/a".to_string(), dst: "/b".to_string() }
            );
            assert_eq!(err.source.as_deref(), Some("ENOENT"));
        },
        other => panic!("expected a terminal error, got {:?}", other),
    }
}

#[test]
fn interior_nul_in_source_is_rejected() {
    let cfg = Isolator::new().with_bind_mount("bad\u{0}path".to_string(), "/b".to_string());
    let (state, _) = child_start();
    let (state, _) = child_step(&cfg, state, ChildEvent::Succeeded);
    let (state, action) = child_step(&cfg, state, ChildEvent::Succeeded);
    assert_eq!(state, ChildState::Finished);
    match action {
        ChildAction::Finish(Err(err)) => {
            assert_eq!(
                err.kind,
                IsolateErrorKind::InvalidSourcePath { path: "bad\u{0}path".to_string() }
            );
        },
        other => panic!("expected a terminal error, got {:?}", other),
    }
}

#[test]
fn failed_chroot_reports_the_path() {
    let cfg = Isolator::new().with_chroot("/nowhere".to_string());
    let (state, _) = child_start();
    let (state, _) = child_step(&cfg, state, ChildEvent::Succeeded);
    let (state, _) = child_step(&cfg, state, ChildEvent::Succeeded);
    let (_, action) = child_step(
        &cfg,
        state,
        ChildEvent::Failed { error: Some("ENOENT".to_string()) },
    );
    match action {
        ChildAction::Finish(Err(err)) => {
            assert_eq!(err.kind, IsolateErrorKind::ChrootFailed { path: "/nowhere".to_string() });
        },
        other => panic!("expected a terminal error, got {:?}", other),
    }
}

#[test]
fn failed_mount_private_is_terminal() {
    let cfg = Isolator::new();
    let (state, _) = child_start();
    let (state, _) = child_step(&cfg, state, ChildEvent::Succeeded);
    let (state, action) = child_step(
        &cfg,
        state,
        ChildEvent::Failed { error: Some("EPERM".to_string()) },
    );
    assert_eq!(state, ChildState::Finished);
    match action {
        ChildAction::Finish(Err(err)) => {
            assert_eq!(err.kind, IsolateErrorKind::MountPrivateFailed);
        }
        other => panic!("expected a terminal error, got {:?}", other),
    }
}

#[test]
fn interior_nul_in_destination_is_rejected() {
    let cfg = Isolator::new().with_bind_mount("/a".to_string(), "bad\u{0}dst".to_string());
    let (state, _) = child_start();
    let (state, _) = child_step(&cfg, state, ChildEvent::Succeeded);
    let (_, action) = child_step(&cfg, state, ChildEvent::Succeeded);
    match action {
        ChildAction::Finish(Err(err)) => {
            assert_eq!(
                err.kind,
                IsolateErrorKind::InvalidDestinationPath { path: "bad\u{0}dst".to_string() }
            );
        }
        other => panic!("expected a terminal error, got {:?}", other),
    }
}

#[test]
fn failed_chdir_is_terminal() {
    let cfg = Isolator::new().with_chroot("/r".to_string());
    let (state, _) = child_start();
    let (state, _) = child_step(&cfg, state, ChildEvent::Succeeded);
    let (state, _) = child_step(&cfg, state, ChildEvent::Succeeded);
    let (state, _) = child_step(&cfg, state, ChildEvent::Succeeded);
    let (_, action) = child_step(
        &cfg,
        state,
        ChildEvent::Failed { error: Some("EIO".to_string()) },
    );
    match action {
        ChildAction::Finish(Err(err)) => {
            assert_eq!(err.kind, IsolateErrorKind::ChdirFailed);
        }
        other => panic!("expected a terminal error, got {:?}", other),
    }
}
