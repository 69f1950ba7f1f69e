use rugix_isolator::parent::{
    helper_args, parent_start, parent_step, plan_isolation, ParentAction, ParentCtx, ParentEvent,
    ParentOutcome, ParentState,
};
use rugix_isolator::sys::clone_flags;
use rugix_isolator::{Isolator, IsolateErrorKind, MapKind};

fn ctx() -> ParentCtx {
    ParentCtx {
        child_pid: 4242,
        parent_uid_map: "0 1000 1\n".to_string(),
        parent_gid_map: "0 1000 1\n".to_string(),
    }
}

#[test]
fn plan_rejects_multithreaded_process() {
    let iso = Isolator::new();
    let err = plan_isolation(
        &iso,
        Some("Threads:\t2\n".to_string()),
        Some("0 0 1\n".to_string()),
        Some("0 0 1\n".to_string()),
    )
    .unwrap_err();
    assert_eq!(err.kind, IsolateErrorKind::NotSingleThreaded);
}

#[test]
fn plan_rejects_unknown_thread_count() {
    let iso = Isolator::new();
    let err = plan_isolation(&iso, None, Some("0 0 1\n".into()), Some("0 0 1\n".into()))
        .unwrap_err();
    assert_eq!(err.kind, IsolateErrorKind::ThreadCountUnknown);
}

#[test]
fn plan_rejects_missing_parent_maps() {
    let iso = Isolator::new();
    let status = Some("Threads:\t1\n".to_string());
    let err = plan_isolation(&iso, status.clone(), None, Some("0 0 1\n".into())).unwrap_err();
    assert_eq!(err.kind, IsolateErrorKind::ParentMapReadFailed(MapKind::Uid));
    let err = plan_isolation(&iso, status, Some("0 0 1\n".into()), None).unwrap_err();
    assert_eq!(err.kind, IsolateErrorKind::ParentMapReadFailed(MapKind::Gid));
}

#[test]
fn plan_carries_flags_and_maps() {
    let iso = Isolator::new().with_new_pid_namespace();
    let plan = plan_isolation(
        &iso,
        Some("Threads:\t1\n".to_string()),
        Some("0 1000 1\n".to_string()),
        Some("0 1000 2\n".to_string()),
    )
    .unwrap();
    assert_eq!(plan.clone_flags, clone_flags(true));
    assert_eq!(plan.parent_uid_map, "0 1000 1\n");
    assert_eq!(plan.parent_gid_map, "0 1000 2\n");
}

#[test]
fn direct_write_path_in_order() {
    let ctx = ctx();
    let (state, action) = parent_start(&ctx);
    assert_eq!(action, ParentAction::OpenPidfd { pid: 4242 });

    let (state, action) = parent_step(&ctx, state, ParentEvent::Opened { ok: true, error: None });
    assert_eq!(
        action,
        ParentAction::WriteMap {
            kind: MapKind::Uid,
            path: "/proc/4242/uid_map".to_string(),
            content: "0 0 1\n".to_string(),
        }
    );

    let (state, action) = parent_step(&ctx, state, ParentEvent::Wrote);
    assert_eq!(
        action,
        ParentAction::WriteMap {
            kind: MapKind::Gid,
            path: "/proc/4242/gid_map".to_string(),
            content: "0 0 1\n".to_string(),
        }
    );

    let (state, action) = parent_step(&ctx, state, ParentEvent::Wrote);
    assert_eq!(
        action,
        ParentAction::InstallHandlers {
            signals: vec![libc::SIGTERM, libc::SIGINT, libc::SIGHUP, libc::SIGQUIT,
                libc::SIGUSR1, libc::SIGUSR2],
        }
    );

    let (state, action) = parent_step(&ctx, state, ParentEvent::Installed);
    assert_eq!(action, ParentAction::CloseBarrier);

    let (state, action) = parent_step(&ctx, state, ParentEvent::Closed);
    assert_eq!(action, ParentAction::WaitChild { pid: 4242 });

    let (_, action) = parent_step(&ctx, state, ParentEvent::WaitStatus { status: 0 });
    assert_eq!(action, ParentAction::Finish(ParentOutcome::Exit { code: 0 }));
}

#[test]
fn eperm_fallback_uses_documented_helper_schema() {
    let ctx = ctx();
    let state = ParentState::WritingUidMap;
    let (state, action) = parent_step(
        &ctx,
        state,
        ParentEvent::WriteFailed { eperm: true, error: Some("EPERM".to_string()) },
    );
    assert_eq!(action, ParentAction::ReadRealIds);

    let (state, action) = parent_step(&ctx, state, ParentEvent::GotIds { uid: 1000, gid: 1001 });
    assert_eq!(action, ParentAction::LookupUser { uid: 1000 });

    let (state, action) = parent_step(
        &ctx,
        state,
        ParentEvent::UserFound { name: "alice".to_string() },
    );
    assert_eq!(
        action,
        ParentAction::ReadSubidFile { kind: MapKind::Uid, path: "/etc/subuid".to_string() }
    );

    let (state, action) = parent_step(
        &ctx,
        state,
        ParentEvent::FileRead { content: Some("alice:100000:65536\n".to_string()) },
    );
    assert_eq!(
        action,
        ParentAction::ReadSubidFile { kind: MapKind::Gid, path: "/etc/subgid".to_string() }
    );

    let (state, action) = parent_step(
        &ctx,
        state,
        ParentEvent::FileRead { content: Some("alice:200000:65536\n".to_string()) },
    );
    assert_eq!(
        action,
        ParentAction::RunHelper {
            kind: MapKind::Uid,
            program: "newuidmap".to_string(),
            args: vec!["4242".into(), "0".into(), "1000".into(), "1".into(), "1".into(),
                "100000".into(), "65536".into()],
        }
    );

    let (state, action) = parent_step(
        &ctx,
        state,
        ParentEvent::HelperFinished { launched: true, success: true, code: 0, error: None },
    );
    assert_eq!(
        action,
        ParentAction::RunHelper {
            kind: MapKind::Gid,
            program: "newgidmap".to_string(),
            args: vec!["4242".into(), "0".into(), "1001".into(), "1".into(), "1".into(),
                "200000".into(), "65536".into()],
        }
    );

    let (_, action) = parent_step(
        &ctx,
        state,
        ParentEvent::HelperFinished { launched: true, success: true, code: 0, error: None },
    );
    assert!(matches!(action, ParentAction::InstallHandlers { .. }));
}

#[test]
fn helper_args_follow_schema() {
    let args = helper_args(7, 1000, &rugix_isolator::SubIdRange { start: 100000, count: 65536 });
    assert_eq!(args, vec!["7", "0", "1000", "1", "1", "100000", "65536"]);
}

#[test]
fn map_write_failure_kills_and_reaps_before_surfacing() {
    let ctx = ctx();
    let (state, action) = parent_step(
        &ctx,
        ParentState::WritingUidMap,
        ParentEvent::WriteFailed { eperm: false, error: Some("EACCES".to_string()) },
    );
    // The kill comes first.
    assert_eq!(action, ParentAction::KillChild { pid: 4242, signal: libc::SIGKILL });

    // Then the child is reaped.
    let (state, action) = parent_step(&ctx, state, ParentEvent::Killed { ok: true, error: None });
    assert_eq!(action, ParentAction::WaitChild { pid: 4242 });

    // Only then is the error surfaced.
    let (_, action) = parent_step(
        &ctx,
        state,
        ParentEvent::WaitStatus { status: libc::SIGKILL as u32 },
    );
    match action {
        ParentAction::Finish(ParentOutcome::Fail(err)) => {
            assert_eq!(err.kind, IsolateErrorKind::MapWriteFailed { kind: MapKind::Uid, pid: 4242 });
            assert_eq!(err.source.as_deref(), Some("EACCES"));
        },
        other => panic!("expected a surfaced failure, got {:?}", other),
    }
}

#[test]
fn signaled_child_exits_with_shell_convention() {
    let ctx = ctx();
    let (_, action) = parent_step(
        &ctx,
        ParentState::Waiting,
        ParentEvent::WaitStatus { status: libc::SIGTERM as u32 },
    );
    assert_eq!(action, ParentAction::Finish(ParentOutcome::Exit { code: 128 + libc::SIGTERM }));
}

#[test]
fn pidfd_failure_is_supervisor_fatal() {
    let ctx = ctx();
    let (state, _) = parent_start(&ctx);
    let (_, action) = parent_step(
        &ctx,
        state,
        ParentEvent::Opened { ok: false, error: Some("ENOSYS".to_string()) },
    );
    match action {
        ParentAction::Finish(ParentOutcome::Fatal { error, cleanup }) => {
            assert_eq!(error.kind, IsolateErrorKind::PidfdOpenFailed);
            assert_eq!(error.source.as_deref(), Some("ENOSYS"));
            assert_eq!(cleanup, None);
        },
        other => panic!("expected a fatal outcome, got {:?}", other),
    }
}

#[test]
fn nonzero_helper_exit_is_terminal() {
    let ctx = ctx();
    let state = ParentState::RunningGidHelper;
    let (state, action) = parent_step(
        &ctx,
        state,
        ParentEvent::HelperFinished { launched: true, success: false, code: 1, error: None },
    );
    assert_eq!(action, ParentAction::KillChild { pid: 4242, signal: libc::SIGKILL });
    match state {
        ParentState::KillingChild { error } => {
            assert_eq!(
                error.kind,
                IsolateErrorKind::HelperExitNonZero { kind: MapKind::Gid, code: 1 }
            );
        },
        other => panic!("expected the killing state, got {:?}", other),
    }
}

#[test]
fn missing_subid_entry_is_terminal() {
    let ctx = ctx();
    let state = ParentState::ReadingSubuid {
        uid: 1000,
        gid: 1000,
        username: "carol".to_string(),
    };
    let (state, _) = parent_step(
        &ctx,
        state,
        ParentEvent::FileRead { content: Some("alice:100000:65536\n".to_string()) },
    );
    match state {
        ParentState::KillingChild { error } => {
            assert_eq!(
                error.kind,
                IsolateErrorKind::SubidEntryMissing { kind: MapKind::Uid, uid: 1000 }
            );
        },
        other => panic!("expected the killing state, got {:?}", other),
    }
}

#[test]
fn missing_username_is_terminal() {
    let ctx = ctx();
    let state = ParentState::LookingUpUser { uid: 1000, gid: 1000 };
    let (state, _) = parent_step(&ctx, state, ParentEvent::UserMissing);
    match state {
        ParentState::KillingChild { error } => {
            assert_eq!(error.kind, IsolateErrorKind::UsernameLookupFailed { uid: 1000 });
        }
        other => panic!("expected the killing state, got {:?}", other),
    }
}

#[test]
fn unreadable_subid_file_is_terminal() {
    let ctx = ctx();
    let state = ParentState::ReadingSubuid {
        uid: 1000,
        gid: 1000,
        username: "alice".to_string(),
    };
    let (state, _) = parent_step(&ctx, state, ParentEvent::FileRead { content: None });
    match state {
        ParentState::KillingChild { error } => {
            assert_eq!(error.kind, IsolateErrorKind::SubidParseFailed(MapKind::Uid));
        }
        other => panic!("expected the killing state, got {:?}", other),
    }
}

#[test]
fn unlaunchable_helper_is_terminal() {
    let ctx = ctx();
    let state = ParentState::RunningUidHelper {
        gid: 1000,
        subgid: rugix_isolator::SubIdRange { start: 1, count: 2 },
    };
    let (state, _) = parent_step(
        &ctx,
        state,
        ParentEvent::HelperFinished {
            launched: false,
            success: false,
            code: -1,
            error: Some("ENOENT".to_string()),
        },
    );
    match state {
        ParentState::KillingChild { error } => {
            assert_eq!(error.kind, IsolateErrorKind::HelperInvocationFailed(MapKind::Uid));
            assert_eq!(error.source.as_deref(), Some("ENOENT"));
        }
        other => panic!("expected the killing state, got {:?}", other),
    }
}

#[test]
fn failed_wait_is_supervisor_fatal() {
    let ctx = ctx();
    let (_, action) = parent_step(
        &ctx,
        ParentState::Waiting,
        ParentEvent::WaitFailed { error: Some("ECHILD".to_string()) },
    );
    match action {
        ParentAction::Finish(ParentOutcome::Fatal { error, cleanup }) => {
            assert_eq!(error.kind, IsolateErrorKind::WaitChildFailed);
            assert_eq!(error.source.as_deref(), Some("ECHILD"));
            assert_eq!(cleanup, None);
        }
        other => panic!("expected a fatal outcome, got {:?}", other),
    }
}

#[test]
fn failed_kill_reports_both_errors() {
    let ctx = ctx();
    let original = rugix_isolator::IsolateError::new(IsolateErrorKind::UsernameLookupFailed {
        uid: 7,
    });
    let state = ParentState::KillingChild { error: original.clone() };
    let (_, action) = parent_step(
        &ctx,
        state,
        ParentEvent::Killed { ok: false, error: Some("ESRCH".to_string()) },
    );
    match action {
        ParentAction::Finish(ParentOutcome::Fatal { error, cleanup }) => {
            assert_eq!(error, original);
            assert_eq!(cleanup.as_deref(), Some("ESRCH"));
        }
        other => panic!("expected a fatal outcome, got {:?}", other),
    }
}

#[test]
fn stopped_child_keeps_waiting() {
    let ctx = ctx();
    let stopped: i32 = (libc::SIGSTOP << 8) | 0x7f;
    let (state, action) = parent_step(
        &ctx,
        ParentState::Waiting,
        ParentEvent::WaitStatus { status: stopped as u32 },
    );
    assert_eq!(state, ParentState::Waiting);
    assert_eq!(action, ParentAction::WaitChild { pid: 4242 });
}
