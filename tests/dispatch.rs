use yamaha_remote::{gather, settle, BridgeFailure, Reply};

#[derive(Debug, PartialEq)]
struct Info(&'static str);

#[derive(Debug, PartialEq)]
enum DeviceError {
    InternalError,
    Guarded,
}

#[test]
fn settle_passes_snapshot_unchanged() {
    let joined: Result<Result<Info, DeviceError>, BridgeFailure> = Ok(Ok(Info("RX-V685")));
    match settle(joined) {
        Reply::Done(v) => assert_eq!(v, Info("RX-V685")),
        other => panic!("unexpected {:?}", other),
    }
}

#[test]
fn settle_keeps_device_error_class() {
    let joined: Result<Result<Info, DeviceError>, BridgeFailure> = Ok(Err(DeviceError::Guarded));
    match settle(joined) {
        Reply::Failed(e) => assert_eq!(e, DeviceError::Guarded),
        other => panic!("unexpected {:?}", other),
    }
}

#[test]
fn settle_unit_ack_for_writes() {
    let joined: Result<Result<(), DeviceError>, BridgeFailure> = Ok(Ok(()));
    assert!(matches!(settle(joined), Reply::Done(())));
}

#[test]
fn settle_reports_worker_failure_as_fatal() {
    let joined: Result<Result<Info, DeviceError>, BridgeFailure> = Err(BridgeFailure::Panicked);
    let r = settle(joined);
    assert!(r.is_fatal());
    assert!(matches!(r, Reply::Fatal(BridgeFailure::Panicked)));

    let cancelled: Result<Result<(), DeviceError>, BridgeFailure> = Err(BridgeFailure::Cancelled);
    assert!(matches!(settle(cancelled), Reply::Fatal(BridgeFailure::Cancelled)));
}

#[test]
fn device_error_is_not_fatal() {
    let joined: Result<Result<Info, DeviceError>, BridgeFailure> =
        Ok(Err(DeviceError::InternalError));
    let r = settle(joined);
    assert!(!r.is_fatal());
    assert!(matches!(r, Reply::Failed(DeviceError::InternalError)));
}

#[test]
fn gather_isolates_failure_at_its_index() {
    let joined: Vec<Result<Result<Info, DeviceError>, BridgeFailure>> = vec![
        Ok(Ok(Info("a1"))),
        Ok(Err(DeviceError::Guarded)),
        Ok(Ok(Info("a3"))),
    ];
    let r = gather(joined).expect("no worker failed");
    assert_eq!(
        r,
        vec![Ok(Info("a1")), Err(DeviceError::Guarded), Ok(Info("a3"))]
    );
}

#[test]
fn gather_of_nothing_is_empty() {
    let joined: Vec<Result<Result<Info, DeviceError>, BridgeFailure>> = Vec::new();
    let r = gather(joined).expect("no worker failed");
    assert!(r.is_empty());
}

#[test]
fn gather_aborts_on_worker_failure() {
    let joined: Vec<Result<Result<Info, DeviceError>, BridgeFailure>> = vec![
        Ok(Ok(Info("a1"))),
        Err(BridgeFailure::Cancelled),
        Ok(Err(DeviceError::Guarded)),
        Err(BridgeFailure::Panicked),
    ];
    assert_eq!(gather(joined), Err(BridgeFailure::Cancelled));
}
