use tizen::keys;
use tizen::window::{
    check_globals, evdev_to_mouse_button, fill_pixels, Error, KeyGrab, KeyGrabMode, KeyGrabRequest,
    ModifiersState, MouseButton, PolicyRequest, SeatBindings, SurfaceEvent, SurfaceState,
    WindowBuilder, WindowGlobal, WindowType, seat_bindings, window_global, loop_step, LoopStep, check_compositor, connect_error,
};

#[test]
fn evdev_buttons_map() {
    assert_eq!(evdev_to_mouse_button(0x110), MouseButton::Left);
    assert_eq!(evdev_to_mouse_button(0x111), MouseButton::Right);
    assert_eq!(evdev_to_mouse_button(0x112), MouseButton::Middle);
    assert_eq!(evdev_to_mouse_button(0x113), MouseButton::Back);
    assert_eq!(evdev_to_mouse_button(0x114), MouseButton::Forward);
    assert_eq!(evdev_to_mouse_button(0x115), MouseButton::Other(0x115));
    assert_eq!(evdev_to_mouse_button(0x1_0110), MouseButton::Other(0x110));
}

#[test]
fn grab_modes_and_window_types_have_protocol_values() {
    assert_eq!(KeyGrabMode::Shared.as_u32(), 1);
    assert_eq!(KeyGrabMode::Topmost.as_u32(), 2);
    assert_eq!(KeyGrabMode::OverridableExclusive.as_u32(), 3);
    assert_eq!(KeyGrabMode::Exclusive.as_u32(), 4);
    assert_eq!(KeyGrabMode::Registered.as_u32(), 5);
    assert_eq!(WindowType::Floating.as_u32(), 0);
    assert_eq!(WindowType::Toplevel.as_u32(), 1);
    assert_eq!(WindowType::Menu.as_u32(), 5);
    assert_eq!(WindowType::Custom.as_u32(), 7);
    assert_eq!(WindowType::Splash.as_u32(), 12);
    assert_eq!(WindowType::default(), WindowType::Toplevel);
    assert_eq!(KeyGrabMode::default(), KeyGrabMode::Topmost);
}

#[test]
fn key_grab_shortcuts() {
    let g = KeyGrab::topmost(keys::LEFT);
    assert_eq!(g.name, "Left");
    assert_eq!(g.mode, KeyGrabMode::Topmost);
    let g = KeyGrab::exclusive(keys::BACK);
    assert_eq!(g.name, "XF86Back");
    assert_eq!(g.mode, KeyGrabMode::Exclusive);
}

#[test]
fn builder_defaults_and_initial_state() {
    let b = WindowBuilder::new();
    assert!(b.title_text().is_none());
    assert!(b.app_id_text().is_none());
    assert!(!b.is_transparent());
    assert!(b.key_grabs().is_empty());
    let s = b.initial_state();
    assert_eq!(s.size(), (640, 480));
    assert_eq!(s.pixel, 0xFF1E40AF);
    assert!(!s.configured);
    assert!(!s.should_close());
    assert_eq!(
        b.policy_requests(),
        vec![PolicyRequest::SetType(1), PolicyRequest::Show, PolicyRequest::Raise]
    );
}

#[test]
fn builder_settings_are_kept() {
    let b = WindowBuilder::new()
        .title("hello")
        .app_id("rust.tizen.hello")
        .size(800, 600)
        .transparent(true);
    assert_eq!(b.title_text().unwrap(), "hello");
    assert_eq!(b.app_id_text().unwrap(), "rust.tizen.hello");
    assert!(b.is_transparent());
    assert_eq!(b.initial_state().size(), (800, 600));
}

#[test]
fn floating_focus_skip_policy() {
    let b = WindowBuilder::new()
        .window_type(WindowType::Floating)
        .focus_skip(true);
    assert_eq!(
        b.policy_requests(),
        vec![
            PolicyRequest::SetFloatingMode,
            PolicyRequest::SetType(0),
            PolicyRequest::Show,
            PolicyRequest::Raise,
            PolicyRequest::SetFocusSkip,
        ]
    );
}

#[test]
fn keygrab_requests_follow_grabs_and_skip_unresolved() {
    let b = WindowBuilder::new().grab_keys(vec![
        KeyGrab::topmost(keys::LEFT),
        KeyGrab::exclusive(keys::BACK),
        KeyGrab::topmost(keys::TAB),
    ]);
    let codes = vec![vec![113], vec![], vec![23, 200]];
    assert_eq!(
        b.keygrab_requests(&codes),
        vec![
            KeyGrabRequest { keycode: 113, mode: 2 },
            KeyGrabRequest { keycode: 23, mode: 2 },
            KeyGrabRequest { keycode: 200, mode: 2 },
        ]
    );
    let later = b.grab_keys(vec![KeyGrab::exclusive(keys::UP)]);
    assert_eq!(
        later.keygrab_requests(&vec![vec![111]]),
        vec![KeyGrabRequest { keycode: 111, mode: 4 }]
    );
}

#[test]
fn first_configure_asks_for_paint_once() {
    let mut s = SurfaceState::new(640, 480, 0);
    assert_eq!(s.on_surface_configure(7), vec![SurfaceEvent::RedrawRequested]);
    assert!(s.configured);
    assert!(s.on_surface_configure(8).is_empty());
    assert_eq!(s.pending_configure, None);
}

#[test]
fn toplevel_configure_resizes_only_on_change() {
    let mut s = SurfaceState::new(640, 480, 0);
    assert_eq!(
        s.on_toplevel_configure(1920, 1080),
        vec![
            SurfaceEvent::Resized { width: 1920, height: 1080 },
            SurfaceEvent::RedrawRequested,
        ]
    );
    assert_eq!(s.size(), (1920, 1080));
    assert!(s.on_toplevel_configure(1920, 1080).is_empty());
    assert!(s.on_toplevel_configure(0, 1080).is_empty());
    assert!(s.on_toplevel_configure(100, -1).is_empty());
    assert_eq!(s.size(), (1920, 1080));
}

#[test]
fn close_and_frames() {
    let mut s = SurfaceState::new(10, 10, 0);
    s.request_redraw();
    assert!(s.frame_requested);
    assert_eq!(s.on_frame_done(), vec![SurfaceEvent::RedrawRequested]);
    assert!(!s.frame_requested);
    assert_eq!(s.on_toplevel_close(), vec![SurfaceEvent::CloseRequested]);
    assert!(s.should_close());
    s.on_toplevel_configure(20, 20);
    assert!(s.should_close());
}

#[test]
fn fill_solid_paints_only_when_configured() {
    let mut s = SurfaceState::new(10, 10, 0);
    assert!(!s.fill_solid(0x00FF0000));
    assert_eq!(s.pixel, 0x00FF0000);
    s.on_surface_configure(1);
    assert!(s.fill_solid(0x0000FF00));
    let mut t = SurfaceState::new(1, 1, 0);
    t.set_should_close();
    assert!(t.should_close());
}

#[test]
fn modifiers_state_bits() {
    let m = ModifiersState::from_bits_truncate(ModifiersState::SHIFT | ModifiersState::CTRL | 0x100);
    assert_eq!(m.bits, 3);
    assert!(m.contains(ModifiersState::SHIFT));
    assert!(m.contains(ModifiersState::CTRL));
    assert!(!m.contains(ModifiersState::ALT));
    assert!(!ModifiersState::empty().contains(ModifiersState::LOGO));
}

#[test]
fn missing_globals_are_named_in_order() {
    assert_eq!(check_globals(true, true, true), Ok(()));
    assert_eq!(check_globals(false, false, false), Err(Error::GlobalMissing("wl_compositor")));
    assert_eq!(check_globals(true, false, false), Err(Error::GlobalMissing("zxdg_shell_v6")));
    assert_eq!(check_globals(true, true, false), Err(Error::GlobalMissing("wtz_shell")));
}

#[test]
fn window_error_messages() {
    assert_eq!(
        Error::GlobalMissing("wtz_shell").message(),
        "compositor does not advertise `wtz_shell` \u{2014} needed for native Tizen window"
    );
    assert_eq!(Error::Tbm("x".to_string()).message(), "tbm: x");
    assert_eq!(
        Error::NotConnected("no socket".to_string()).message(),
        "wayland connect failed: no socket"
    );
    assert_eq!(Error::Transport("eof".to_string()).message(), "wayland transport: eof");
    assert_eq!(
        Error::Unsupported.message(),
        "tizen-window not supported on this host build"
    );
}

#[test]
fn fill_pixels_writes_little_endian_and_keeps_padding() {
    let mut buf = vec![0xAAu8; 24];
    fill_pixels(&mut buf, 2, 2, 12, 0x11223344);
    assert_eq!(
        buf,
        vec![
            0x44, 0x33, 0x22, 0x11, 0x44, 0x33, 0x22, 0x11, 0xAA, 0xAA, 0xAA, 0xAA,
            0x44, 0x33, 0x22, 0x11, 0x44, 0x33, 0x22, 0x11, 0xAA, 0xAA, 0xAA, 0xAA,
        ]
    );
    let mut tail = vec![7u8; 9];
    fill_pixels(&mut tail, 1, 2, 4, 0xFF1E40AF);
    assert_eq!(tail, vec![0xAF, 0x40, 0x1E, 0xFF, 0xAF, 0x40, 0x1E, 0xFF, 7]);
    let mut none = vec![1u8; 4];
    fill_pixels(&mut none, 0, 3, 0, 5);
    assert_eq!(none, vec![1, 1, 1, 1]);
}

#[test]
fn registry_globals_and_versions() {
    assert_eq!(window_global("wl_compositor", 6), Some((WindowGlobal::Compositor, 4)));
    assert_eq!(window_global("wl_compositor", 3), Some((WindowGlobal::Compositor, 3)));
    assert_eq!(window_global("zxdg_shell_v6", 2), Some((WindowGlobal::XdgShell, 1)));
    assert_eq!(window_global("wtz_shell", 1), Some((WindowGlobal::WtzShell, 1)));
    assert_eq!(window_global("tizen_policy", 11), Some((WindowGlobal::Policy, 8)));
    assert_eq!(window_global("wl_seat", 9), Some((WindowGlobal::Seat, 7)));
    assert_eq!(window_global("wl_shm", 1), None);
}

#[test]
fn seat_capabilities_bind_once() {
    assert_eq!(seat_bindings(3, false, false), SeatBindings { pointer: true, keyboard: true });
    assert_eq!(seat_bindings(3, true, false), SeatBindings { pointer: false, keyboard: true });
    assert_eq!(seat_bindings(4, false, false), SeatBindings { pointer: false, keyboard: false });
    assert_eq!(seat_bindings(2, false, true), SeatBindings { pointer: false, keyboard: false });
}

#[test]
fn event_loop_finishes_once_the_window_is_to_close() {
    let mut s = WindowBuilder::new().initial_state();
    assert_eq!(loop_step(&s), LoopStep::Continue);
    s.on_surface_configure(1);
    assert_eq!(loop_step(&s), LoopStep::Continue);
    s.on_toplevel_close();
    assert_eq!(loop_step(&s), LoopStep::Finish);
    s.on_frame_done();
    assert_eq!(loop_step(&s), LoopStep::Finish);
}

#[test]
fn off_target_window_is_unsupported() {
    assert_eq!(connect_error(false, "x".to_string()), Error::Unsupported);
    assert_eq!(connect_error(true, "x".to_string()), Error::NotConnected("x".to_string()));
    assert_eq!(check_compositor(false, true, true, false), Err(Error::Unsupported));
    assert_eq!(check_compositor(true, true, true, false), Err(Error::GlobalMissing("wtz_shell")));
    assert_eq!(check_compositor(true, false, true, true), Err(Error::GlobalMissing("wl_compositor")));
    assert_eq!(check_compositor(false, true, true, true), Ok(()));
    assert_eq!(check_compositor(true, true, true, true), Ok(()));
}
