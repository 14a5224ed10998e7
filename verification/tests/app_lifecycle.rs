use tizen::app::{
    create_callback_result, low_memory_from_reply, AppError, AppKind, CreateOutcome,
    HostAction, HostEvent, HostPhase, HostRunner, LowMemoryStatus,
};

#[test]
fn low_memory_statuses_decode() {
    assert_eq!(LowMemoryStatus::from_raw(1), LowMemoryStatus::Normal);
    assert_eq!(LowMemoryStatus::from_raw(2), LowMemoryStatus::SoftWarning);
    assert_eq!(LowMemoryStatus::from_raw(4), LowMemoryStatus::HardWarning);
    assert_eq!(LowMemoryStatus::from_raw(3), LowMemoryStatus::Unknown(3));
    assert_eq!(LowMemoryStatus::from_raw(-7), LowMemoryStatus::Unknown(-7));
}

#[test]
fn low_memory_reply_needs_success_code() {
    assert_eq!(low_memory_from_reply(0, 2), Some(LowMemoryStatus::SoftWarning));
    assert_eq!(low_memory_from_reply(-22, 2), None);
}

#[test]
fn app_error_messages() {
    assert_eq!(AppError::Main(-3).message(), "ui_app_main returned -3");
    assert_eq!(AppError::Main(0).message(), "ui_app_main returned 0");
    assert_eq!(
        AppError::Create("no display".to_string()).message(),
        "lifecycle create failed: no display"
    );
    assert_eq!(AppError::Panic.message(), "lifecycle callback panicked");
}

#[test]
fn create_trampoline_reports_only_success() {
    assert_eq!(create_callback_result(&CreateOutcome::Created), 1);
    assert_eq!(create_callback_result(&CreateOutcome::Failed(AppError::Panic)), 0);
    assert_eq!(create_callback_result(&CreateOutcome::Panicked), 0);
}

#[test]
fn ui_host_run_order() {
    let mut r = HostRunner::new(AppKind::Ui);
    assert_eq!(r.step(HostEvent::Start), vec![HostAction::Create]);
    assert_eq!(
        r.step(HostEvent::CreateFinished(true)),
        vec![HostAction::Resume, HostAction::WaitForShutdown]
    );
    assert_eq!(r.phase, HostPhase::Running);
    assert_eq!(
        r.step(HostEvent::ShutdownRequested),
        vec![HostAction::Pause, HostAction::Terminate, HostAction::Exit(0)]
    );
    assert_eq!(r.phase, HostPhase::Finished);
    assert!(r.step(HostEvent::Start).is_empty());
}

#[test]
fn service_host_run_order() {
    let mut r = HostRunner::new(AppKind::Service);
    assert_eq!(r.step(HostEvent::Start), vec![HostAction::Create]);
    assert_eq!(
        r.step(HostEvent::CreateFinished(true)),
        vec![HostAction::WaitForShutdown]
    );
    assert_eq!(
        r.step(HostEvent::ShutdownRequested),
        vec![HostAction::Terminate, HostAction::Exit(0)]
    );
}

#[test]
fn failed_create_exits_with_one() {
    let mut r = HostRunner::new(AppKind::Ui);
    r.step(HostEvent::Start);
    assert_eq!(r.step(HostEvent::CreateFinished(false)), vec![HostAction::Exit(1)]);
    assert_eq!(r.phase, HostPhase::Finished);
    assert!(r.step(HostEvent::ShutdownRequested).is_empty());
}

#[test]
fn out_of_order_events_do_nothing() {
    let mut r = HostRunner::new(AppKind::Ui);
    assert!(r.step(HostEvent::ShutdownRequested).is_empty());
    assert!(r.step(HostEvent::CreateFinished(true)).is_empty());
    assert_eq!(r.phase, HostPhase::Idle);
}
