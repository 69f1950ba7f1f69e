use rugix_isolator::{IsolateError, IsolateErrorKind, MapKind};

fn msg(kind: IsolateErrorKind) -> String {
    IsolateError::new(kind).message()
}

#[test]
fn simple_messages() {
    assert_eq!(msg(IsolateErrorKind::NotSingleThreaded), "process is multi-threaded");
    assert_eq!(msg(IsolateErrorKind::ThreadCountUnknown), "unable to determine thread count");
    assert_eq!(
        msg(IsolateErrorKind::ParentMapReadFailed(MapKind::Uid)),
        "unable to read parent 'uid_map'"
    );
    assert_eq!(msg(IsolateErrorKind::PipeCreationFailed), "unable to create pipe");
    assert_eq!(msg(IsolateErrorKind::CloneFailed), "unable to clone process");
    assert_eq!(msg(IsolateErrorKind::MountPrivateFailed), "unable to make '/' private");
    assert_eq!(msg(IsolateErrorKind::BarrierWaitFailed), "unable to wait for parent");
}

#[test]
fn messages_with_embedded_values() {
    assert_eq!(
        msg(IsolateErrorKind::MapWriteFailed { kind: MapKind::Uid, pid: 4242 }),
        "failed to write /proc/4242/uid_map"
    );
    assert_eq!(
        msg(IsolateErrorKind::UsernameLookupFailed { uid: 1000 }),
        "unable to get username for uid 1000"
    );
    assert_eq!(
        msg(IsolateErrorKind::SubidEntryMissing { kind: MapKind::Gid, uid: 7 }),
        "no subgid entry found for uid 7"
    );
    assert_eq!(
        msg(IsolateErrorKind::HelperExitNonZero { kind: MapKind::Uid, code: 1 }),
        "'newuidmap' failed with exit code 1"
    );
    assert_eq!(
        msg(IsolateErrorKind::HelperExitNonZero { kind: MapKind::Gid, code: -1 }),
        "newgidmap failed with exit code -1"
    );
    assert_eq!(
        msg(IsolateErrorKind::BindMountFailed { src: "/a".into(), dst: "/b".into() }),
        "bind mount '/a' -> '/b' failed"
    );
    assert_eq!(
        msg(IsolateErrorKind::ChrootFailed { path: "/r".into() }),
        "unable to chroot to '/r'"
    );
}

#[test]
fn source_is_kept_alongside_the_message() {
    let err = IsolateError::new(IsolateErrorKind::CloneFailed).with_source("EAGAIN".to_string());
    assert_eq!(err.kind, IsolateErrorKind::CloneFailed);
    assert_eq!(err.source.as_deref(), Some("EAGAIN"));
    assert_eq!(err.message(), "unable to clone process");
}
