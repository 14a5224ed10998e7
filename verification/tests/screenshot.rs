use tizen::screenshot::{
    area_request, capture_finished, check_host, outcome_result, CaptureAction, CaptureEvent,
    CaptureOutcome, CaptureStage, CaptureState, check_globals, mapped_layout, output_mode, output_size,
    shot_global, surface_allocation_error, Error, FrameLayout, ScreenFrame, ShotGlobal,
    SHOT_FORMAT,
};
use tizen::tbm::{ok, tbm_fourcc, LoadError, TBM_FORMAT_XRGB8888};

#[test]
fn fourcc_codes() {
    assert_eq!(tbm_fourcc(b'X', b'R', b'2', b'4'), 0x34325258);
    assert_eq!(TBM_FORMAT_XRGB8888, 0x34325258);
    assert_eq!(SHOT_FORMAT, TBM_FORMAT_XRGB8888);
    assert_eq!(tbm_fourcc(1, 0, 0, 0), 1);
    assert_eq!(tbm_fourcc(0, 0, 0, 0xff), 0xff00_0000);
    assert!(ok(0));
    assert!(!ok(-1));
}

#[test]
fn frame_accessors() {
    let f = ScreenFrame::new(2, 1, 8, vec![1, 2, 3, 4, 5, 6, 7, 8]);
    assert_eq!(f.width(), 2);
    assert_eq!(f.height(), 1);
    assert_eq!(f.stride(), 8);
    assert_eq!(f.format(), 0x34325258);
    assert_eq!(f.bytes(), &[1, 2, 3, 4, 5, 6, 7, 8]);
    assert_eq!(f.clone().into_bytes(), vec![1, 2, 3, 4, 5, 6, 7, 8]);
}

#[test]
fn globals_are_checked_in_order() {
    assert_eq!(check_globals(false, None, false), Err(Error::ProtocolUnavailable));
    assert_eq!(
        check_globals(true, None, true),
        Err(Error::ProtocolTooOld { advertised: 0, required: 3 })
    );
    assert_eq!(
        check_globals(true, Some(2), true),
        Err(Error::ProtocolTooOld { advertised: 2, required: 3 })
    );
    assert_eq!(check_globals(true, Some(3), false), Err(Error::NoOutput));
    assert_eq!(check_globals(true, Some(4), true), Ok(()));
}

#[test]
fn output_size_falls_back() {
    assert_eq!(output_size(Some((1280, 720))), (1280, 720));
    assert_eq!(output_size(Some((0, 720))), (1920, 1080));
    assert_eq!(output_size(None), (1920, 1080));
}

#[test]
fn area_requests_are_validated() {
    match area_request(0, 0, -5, 10, 4) {
        Err(Error::BufferAllocation(m)) => assert_eq!(m, "non-positive dimensions (-5, 10)"),
        other => panic!("unexpected {other:?}"),
    }
    assert_eq!(
        area_request(0, 0, 5, 10, 3),
        Err(Error::ProtocolTooOld { advertised: 3, required: 4 })
    );
    assert_eq!(area_request(10, 20, 5, 10, 4), Ok((5, 10)));
}

#[test]
fn mapped_layouts() {
    match mapped_layout(-2, 10, 10, 40, false) {
        Err(Error::BufferMap(m)) => assert_eq!(m, "tbm_surface_map rc=-2"),
        other => panic!("unexpected {other:?}"),
    }
    assert_eq!(
        mapped_layout(0, 10, 3, 64, false),
        Ok(FrameLayout { stride: 64, len: 192 })
    );
    assert_eq!(
        mapped_layout(0, 10, 3, 16, false),
        Ok(FrameLayout { stride: 40, len: 120 })
    );
    match mapped_layout(0, 10, 3, 64, true) {
        Err(Error::BufferMap(m)) => assert_eq!(m, "tbm_surface_map produced a NULL plane pointer"),
        other => panic!("unexpected {other:?}"),
    }
    assert!(mapped_layout(0, 10, 0, 64, false).is_err());
}

#[test]
fn capture_wait_and_errors() {
    assert!(capture_finished(false, true, false));
    assert!(!capture_finished(true, true, false));
    assert!(capture_finished(true, false, true));
    match surface_allocation_error(640, 480) {
        Error::BufferAllocation(m) => assert_eq!(m, "tbm_surface_create(640, 480) returned NULL"),
        other => panic!("unexpected {other:?}"),
    }
}

#[test]
fn screenshot_error_messages() {
    assert_eq!(
        Error::ProtocolTooOld { advertised: 2, required: 3 }.message(),
        "tizen_screenshooter version 2 on the compositor; this crate needs at least 3"
    );
    assert_eq!(Error::NoOutput.message(), "no wl_output advertised \u{2014} nothing to capture");
    assert_eq!(
        Error::BufferMap("x".to_string()).message(),
        "tbm buffer map failed: x"
    );
    assert_eq!(
        Error::Unsupported.message(),
        "tizen-screenshot not supported on this host build (Tizen-only)"
    );
}

#[test]
fn load_error_messages() {
    assert_eq!(
        LoadError::LibraryOpen("not found".to_string()).message(),
        "failed to dlopen libwayland-tbm-client.so.0: not found"
    );
    assert_eq!(
        LoadError::MissingSymbol("wayland_tbm_client_init", "undefined".to_string()).message(),
        "libwayland-tbm-client.so.0 missing symbol `wayland_tbm_client_init`: undefined"
    );
}

#[test]
fn registry_globals_and_modes() {
    assert_eq!(shot_global("tizen_screenshooter", 4, false), Some((ShotGlobal::Screenshooter, 4)));
    assert_eq!(shot_global("wl_output", 3, false), Some((ShotGlobal::Output, 2)));
    assert_eq!(shot_global("wl_output", 3, true), None);
    assert_eq!(shot_global("wl_seat", 3, false), None);
    assert_eq!(output_mode(None, 1280, 720), Some((1280, 720)));
    assert_eq!(output_mode(Some((1280, 720)), 0, 720), Some((1280, 720)));
    assert_eq!(output_mode(None, -1, 720), None);
}

#[test]
fn off_target_capture_is_unsupported() {
    assert_eq!(check_host(false, false), Err(Error::Unsupported));
    assert_eq!(check_host(false, true), Ok(()));
    assert_eq!(check_host(true, false), Ok(()));
}

fn finish(a: CaptureAction) -> (bool, bool, CaptureOutcome) {
    match a {
        CaptureAction::Finish { release_buffer, release_surface, outcome } => (release_buffer, release_surface, outcome),
        other => panic!("expected Finish, got {other:?}"),
    }
}

#[test]
fn capture_runs_to_copy_and_gives_back_both() {
    let mut c = CaptureState::new(false);
    assert!(matches!(c.step(CaptureEvent::SurfaceCreated(true)), CaptureAction::CreateBuffer));
    assert!(matches!(c.step(CaptureEvent::BufferCreated(Ok(true))), CaptureAction::MakeProxy));
    assert!(matches!(c.step(CaptureEvent::ProxyMade(Ok(()))), CaptureAction::FindOutput));
    assert!(matches!(c.step(CaptureEvent::OutputFound(true)), CaptureAction::Shoot { area: false }));
    // Only the area flag arrived: a full shot keeps waiting.
    assert!(matches!(c.step(CaptureEvent::Dispatched(Ok((false, true)))), CaptureAction::Dispatch));
    assert!(matches!(c.step(CaptureEvent::Dispatched(Ok((true, false)))), CaptureAction::CopyOut));
    let (rb, rs, outcome) = finish(c.step(CaptureEvent::CopiedOut(Ok(()))));
    assert!(rb && rs);
    assert!(matches!(outcome, CaptureOutcome::Captured));
    assert_eq!(c.stage, CaptureStage::Done);
    assert!(!c.surface && !c.buffer);
    assert_eq!(outcome_result(outcome, 4, 2), Ok(()));
}

#[test]
fn capture_failures_give_back_what_is_held() {
    let mut c = CaptureState::new(true);
    let (rb, rs, outcome) = finish(c.step(CaptureEvent::SurfaceCreated(false)));
    assert!(!rb && !rs);
    match outcome_result(outcome, 640, 480) {
        Err(Error::BufferAllocation(m)) => assert_eq!(m, "tbm_surface_create(640, 480) returned NULL"),
        other => panic!("unexpected {other:?}"),
    }

    let mut c = CaptureState::new(true);
    c.step(CaptureEvent::SurfaceCreated(true));
    let (rb, rs, outcome) = finish(c.step(CaptureEvent::BufferCreated(Ok(false))));
    assert!(!rb && rs);
    match outcome_result(outcome, 1, 1) {
        Err(Error::BufferAllocation(m)) => assert_eq!(m, "wayland_tbm_client_create_buffer returned NULL"),
        other => panic!("unexpected {other:?}"),
    }

    let mut c = CaptureState::new(true);
    c.step(CaptureEvent::SurfaceCreated(true));
    c.step(CaptureEvent::BufferCreated(Ok(true)));
    c.step(CaptureEvent::ProxyMade(Ok(())));
    let (rb, rs, outcome) = finish(c.step(CaptureEvent::OutputFound(false)));
    assert!(rb && rs);
    assert_eq!(outcome_result(outcome, 1, 1), Err(Error::NoOutput));

    let mut c = CaptureState::new(true);
    c.step(CaptureEvent::SurfaceCreated(true));
    c.step(CaptureEvent::BufferCreated(Ok(true)));
    c.step(CaptureEvent::ProxyMade(Ok(())));
    assert!(matches!(c.step(CaptureEvent::OutputFound(true)), CaptureAction::Shoot { area: true }));
    let (rb, rs, outcome) = finish(c.step(CaptureEvent::Dispatched(Err("broken pipe".to_string()))));
    assert!(rb && rs);
    assert_eq!(outcome_result(outcome, 1, 1), Err(Error::Transport("broken pipe".to_string())));
}
