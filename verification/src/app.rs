//! Decisions of the Tizen application framework binding: error values,
//! low-memory statuses, and the order in which lifecycle callbacks run.

use vstd::prelude::*;

use crate::text::{append_decimal, decimal_text};

verus! {

/// Opaque `app_control_s` handed out by the application framework.
pub struct app_control_s {
    _private: [u8; 0],
}

/// Boolean as the application framework's C callbacks return it.
pub type bool_t = u8;

/// Success code of the application framework.
pub const APP_ERROR_NONE: i32 = 0;

/// Success code of the `app_control_*` getters.
pub const APP_CONTROL_ERROR_NONE: i32 = 0;

/// `APP_EVENT_LOW_MEMORY_NORMAL` from `<app_common.h>`.
pub const APP_EVENT_LOW_MEMORY_NORMAL: i32 = 1;

/// `APP_EVENT_LOW_MEMORY_SOFT_WARNING` from `<app_common.h>`.
pub const APP_EVENT_LOW_MEMORY_SOFT_WARNING: i32 = 2;

/// `APP_EVENT_LOW_MEMORY_HARD_WARNING` from `<app_common.h>`.
pub const APP_EVENT_LOW_MEMORY_HARD_WARNING: i32 = 4;

/// Failure of an application run.
#[derive(Clone, Debug, PartialEq, Eq)]
pub enum AppError {
    /// The framework's main loop returned this code.
    Main(i32),
    /// The application's `create` callback failed, with this message.
    Create(String),
    /// A lifecycle callback panicked.
    Panic,
}

/// The text an [`AppError`] displays as.
pub open spec fn app_error_text(e: AppError) -> Seq<char> {
    match e {
        AppError::Main(rc) => "ui_app_main returned "@ + decimal_text(rc as int),
        AppError::Create(msg) => "lifecycle create failed: "@ + msg@,
        AppError::Panic => "lifecycle callback panicked"@,
    }
}

impl AppError {
    /// The human-readable description of the error.
    pub fn message(&self) -> (r: String)
        ensures
            r@ == app_error_text(*self),
    {
        match self {
            AppError::Main(rc) => {
                let mut s = String::from_str("ui_app_main returned ");
                append_decimal(&mut s, *rc as i64);
                s
            },
            AppError::Create(msg) => String::from_str("lifecycle create failed: ").concat(msg.as_str()),
            AppError::Panic => String::from_str("lifecycle callback panicked"),
        }
    }
}

/// Low-memory pressure reported by Tizen.
#[derive(Clone, Copy, Debug, PartialEq, Eq, Structural)]
pub enum LowMemoryStatus {
    Normal,
    SoftWarning,
    HardWarning,
    Unknown(i32),
}

/// The status a raw `app_event_low_memory_status_e` value stands for.
pub open spec fn low_memory_status_of(raw: i32) -> LowMemoryStatus {
    if raw == 1 {
        LowMemoryStatus::Normal
    } else if raw == 2 {
        LowMemoryStatus::SoftWarning
    } else if raw == 4 {
        LowMemoryStatus::HardWarning
    } else {
        LowMemoryStatus::Unknown(raw)
    }
}

/// The `app_event_low_memory_status_e` values: 1 is normal, 2 a soft
/// warning, 4 a hard warning; any other value is kept as unknown.
pub proof fn lemma_low_memory_table(raw: i32)
    ensures
        low_memory_status_of(raw) == LowMemoryStatus::Normal <==> raw == 1,
        low_memory_status_of(raw) == LowMemoryStatus::SoftWarning <==> raw == 2,
        low_memory_status_of(raw) == LowMemoryStatus::HardWarning <==> raw == 4,
        !(raw == 1 || raw == 2 || raw == 4) ==> low_memory_status_of(raw) == LowMemoryStatus::Unknown(raw),
{
}

impl LowMemoryStatus {
    /// Decode a raw `app_event_low_memory_status_e` value; unknown values
    /// are kept as they came.
    pub fn from_raw(raw: i32) -> (r: Self)
        ensures
            r == low_memory_status_of(raw),
    {
        if raw == APP_EVENT_LOW_MEMORY_NORMAL {
            LowMemoryStatus::Normal
        } else if raw == APP_EVENT_LOW_MEMORY_SOFT_WARNING {
            LowMemoryStatus::SoftWarning
        } else if raw == APP_EVENT_LOW_MEMORY_HARD_WARNING {
            LowMemoryStatus::HardWarning
        } else {
            LowMemoryStatus::Unknown(raw)
        }
    }
}

/// The status delivered to the application for a low-memory event whose
/// status query returned `rc` and wrote `status`: none when the query failed.
pub fn low_memory_from_reply(rc: i32, status: i32) -> (r: Option<LowMemoryStatus>)
    ensures
        r == (if rc == APP_ERROR_NONE { Some(low_memory_status_of(status)) } else { None }),
{
    if rc != APP_ERROR_NONE {
        return None;
    }
    Some(LowMemoryStatus::from_raw(status))
}

/// How the application's `create` callback ended.
pub enum CreateOutcome {
    /// It returned `Ok`.
    Created,
    /// It returned this error.
    Failed(AppError),
    /// It panicked.
    Panicked,
}

/// The value the create trampoline returns to the framework: true only
/// when the application was created.
pub fn create_callback_result(outcome: &CreateOutcome) -> (r: bool_t)
    ensures
        r == (if *outcome is Created { 1u8 } else { 0u8 }),
{
    match outcome {
        CreateOutcome::Created => 1,
        CreateOutcome::Failed(_) => 0,
        CreateOutcome::Panicked => 0,
    }
}

/// Which lifecycle an application follows: UI apps are also paused and
/// resumed, service apps are headless.
#[derive(Clone, Copy, Debug, PartialEq, Eq, Structural)]
pub enum AppKind {
    Ui,
    Service,
}

/// Where a hosted application run stands.
#[derive(Clone, Copy, Debug, PartialEq, Eq, Structural)]
pub enum HostPhase {
    /// Nothing has happened yet.
    Idle,
    /// `create` was asked for and has not reported back.
    Creating,
    /// The application runs until a shutdown is requested.
    Running,
    /// The run is over; the process exits.
    Finished,
}

/// What happened to a hosted application run.
#[derive(Clone, Copy, Debug, PartialEq, Eq, Structural)]
pub enum HostEvent {
    /// The run begins.
    Start,
    /// The `create` callback returned; `true` when it succeeded.
    CreateFinished(bool),
    /// SIGINT or SIGTERM arrived.
    ShutdownRequested,
}

/// What the driver of a hosted run does next.
#[derive(Clone, Copy, Debug, PartialEq, Eq, Structural)]
pub enum HostAction {
    /// Call the application's `create`.
    Create,
    /// Call the application's `resume`.
    Resume,
    /// Sleep until a shutdown is requested.
    WaitForShutdown,
    /// Call the application's `pause`.
    Pause,
    /// Call the application's `terminate`.
    Terminate,
    /// Exit the process with this code.
    Exit(i32),
}

/// The next phase and the actions of a hosted run of `kind` in `phase`
/// when `event` happens. Events that do not fit the phase change nothing.
pub open spec fn host_transition(kind: AppKind, phase: HostPhase, event: HostEvent) -> (
    HostPhase,
    Seq<HostAction>,
) {
    match (phase, event) {
        (HostPhase::Idle, HostEvent::Start) => (HostPhase::Creating, seq![HostAction::Create]),
        (HostPhase::Creating, HostEvent::CreateFinished(ok)) => {
            if !ok {
                (HostPhase::Finished, seq![HostAction::Exit(1)])
            } else if kind == AppKind::Ui {
                (HostPhase::Running, seq![HostAction::Resume, HostAction::WaitForShutdown])
            } else {
                (HostPhase::Running, seq![HostAction::WaitForShutdown])
            }
        },
        (HostPhase::Running, HostEvent::ShutdownRequested) => {
            if kind == AppKind::Ui {
                (
                    HostPhase::Finished,
                    seq![HostAction::Pause, HostAction::Terminate, HostAction::Exit(0)],
                )
            } else {
                (HostPhase::Finished, seq![HostAction::Terminate, HostAction::Exit(0)])
            }
        },
        _ => (phase, Seq::empty()),
    }
}

/// The state of a hosted application run (the run used when no Tizen
/// application framework is linked in).
pub struct HostRunner {
    pub kind: AppKind,
    pub phase: HostPhase,
}

impl HostRunner {
    /// A run of `kind` that has not started.
    pub fn new(kind: AppKind) -> (r: Self)
        ensures
            r.kind == kind,
            r.phase == HostPhase::Idle,
    {
        HostRunner { kind, phase: HostPhase::Idle }
    }

    /// React to `event`: move to the next phase and return what to do, in
    /// order.
    pub fn step(&mut self, event: HostEvent) -> (r: Vec<HostAction>)
        ensures
            final(self).kind == old(self).kind,
            (final(self).phase, r@) == host_transition(old(self).kind, old(self).phase, event),
    {
        let kind = self.kind;
        match (self.phase, event) {
            (HostPhase::Idle, HostEvent::Start) => {
                self.phase = HostPhase::Creating;
                vec![HostAction::Create]
            },
            (HostPhase::Creating, HostEvent::CreateFinished(ok)) => {
                if !ok {
                    self.phase = HostPhase::Finished;
                    vec![HostAction::Exit(1)]
                } else {
                    self.phase = HostPhase::Running;
                    match kind {
                        AppKind::Ui => vec![HostAction::Resume, HostAction::WaitForShutdown],
                        AppKind::Service => vec![HostAction::WaitForShutdown],
                    }
                }
            },
            (HostPhase::Running, HostEvent::ShutdownRequested) => {
                self.phase = HostPhase::Finished;
                match kind {
                    AppKind::Ui => vec![HostAction::Pause, HostAction::Terminate, HostAction::Exit(0)],
                    AppKind::Service => vec![HostAction::Terminate, HostAction::Exit(0)],
                }
            },
            _ => Vec::new(),
        }
    }
}

/// A run whose `create` succeeds calls `create`, then (UI apps only)
/// `resume`, waits for a shutdown request, then (UI apps only) `pause`,
/// then `terminate`, and exits with code 0.
pub proof fn lemma_host_successful_run(kind: AppKind)
    ensures
        ({
            let (p1, a1) = host_transition(kind, HostPhase::Idle, HostEvent::Start);
            let (p2, a2) = host_transition(kind, p1, HostEvent::CreateFinished(true));
            let (p3, a3) = host_transition(kind, p2, HostEvent::ShutdownRequested);
            &&& p3 == HostPhase::Finished
            &&& a1 + a2 + a3 == (if kind == AppKind::Ui {
                seq![
                    HostAction::Create,
                    HostAction::Resume,
                    HostAction::WaitForShutdown,
                    HostAction::Pause,
                    HostAction::Terminate,
                    HostAction::Exit(0),
                ]
            } else {
                seq![
                    HostAction::Create,
                    HostAction::WaitForShutdown,
                    HostAction::Terminate,
                    HostAction::Exit(0),
                ]
            })
        }),
{
    let (p1, a1) = host_transition(kind, HostPhase::Idle, HostEvent::Start);
    let (p2, a2) = host_transition(kind, p1, HostEvent::CreateFinished(true));
    let (p3, a3) = host_transition(kind, p2, HostEvent::ShutdownRequested);
    if kind == AppKind::Ui {
        assert(a1 + a2 + a3 =~= seq![
            HostAction::Create,
            HostAction::Resume,
            HostAction::WaitForShutdown,
            HostAction::Pause,
            HostAction::Terminate,
            HostAction::Exit(0),
        ]);
    } else {
        assert(a1 + a2 + a3 =~= seq![
            HostAction::Create,
            HostAction::WaitForShutdown,
            HostAction::Terminate,
            HostAction::Exit(0),
        ]);
    }
}

/// A run whose `create` fails calls nothing else and exits with code 1.
pub proof fn lemma_host_failed_create(kind: AppKind)
    ensures
        ({
            let (p1, a1) = host_transition(kind, HostPhase::Idle, HostEvent::Start);
            let (p2, a2) = host_transition(kind, p1, HostEvent::CreateFinished(false));
            &&& p2 == HostPhase::Finished
            &&& a1 + a2 == seq![HostAction::Create, HostAction::Exit(1)]
        }),
{
    let (p1, a1) = host_transition(kind, HostPhase::Idle, HostEvent::Start);
    let (p2, a2) = host_transition(kind, p1, HostEvent::CreateFinished(false));
    assert(a1 + a2 =~= seq![HostAction::Create, HostAction::Exit(1)]);
}

/// Once a run has finished, nothing more happens.
pub proof fn lemma_host_finished_is_final(kind: AppKind, event: HostEvent)
    ensures
        host_transition(kind, HostPhase::Finished, event) == (HostPhase::Finished, Seq::<HostAction>::empty()),
{
}

/// `terminate` is only called on a running application, and every step
/// that exits the process ends the run.
pub proof fn lemma_host_terminate_and_exit(kind: AppKind, phase: HostPhase, event: HostEvent)
    ensures
        ({
            let (next, actions) = host_transition(kind, phase, event);
            &&& actions.contains(HostAction::Terminate) ==> phase == HostPhase::Running
            &&& (exists|code: i32| actions.contains(HostAction::Exit(code))) ==> next == HostPhase::Finished
        }),
{
    let (next, actions) = host_transition(kind, phase, event);
    if actions.contains(HostAction::Terminate) {
        let i = choose|i: int| 0 <= i < actions.len() && actions[i] == HostAction::Terminate;
        assert(phase == HostPhase::Running);
    }
    if exists|code: i32| actions.contains(HostAction::Exit(code)) {
        let code = choose|code: i32| actions.contains(HostAction::Exit(code));
        let i = choose|i: int| 0 <= i < actions.len() && actions[i] == HostAction::Exit(code);
        assert(next == HostPhase::Finished);
    }
}

} // verus!
