use std::time::Instant;

use tizen::eframe::{
    close_keycodes, closes_on_key, compose_grab_keys, first_with_alpha, map_key,
    map_modifiers, map_mouse_button, native_window, repaint_after_frame, window_names,
    EguiInput, Frame, InputState, Key, Modifiers, NativeOptions, PaintResult, PointerButton,
    RunnerActions, RunnerState, WindowInput,
};
use tizen::keys;
use tizen::text::same_text;
use tizen::window::{KeyGrab, KeyGrabMode, ModifiersState, MouseButton, WindowType};

#[test]
fn frame_bookkeeping() {
    let mut f = Frame::new(7, Instant::now(), (1920, 1080));
    assert_eq!(f.frame_nr(), 7);
    assert_eq!(f.size(), (1920, 1080));
    assert!(!f.repaint_requested());
    f.request_repaint();
    assert!(f.repaint_requested());
    assert!(f.elapsed().as_secs() < 60);
}

#[test]
fn repaint_decision() {
    let f = Frame::new(0, Instant::now(), (1, 1));
    let idle = PaintResult { repaint_requested: false };
    assert!(!repaint_after_frame(false, &f, idle));
    assert!(repaint_after_frame(true, &f, idle));
    assert!(repaint_after_frame(false, &f, PaintResult { repaint_requested: true }));
    let mut g = Frame::new(0, Instant::now(), (1, 1));
    g.request_repaint();
    assert!(repaint_after_frame(false, &g, idle));
}

#[test]
fn back_grab_is_added_once() {
    let grabs = compose_grab_keys(vec![KeyGrab::topmost(keys::LEFT)], true, false);
    assert_eq!(grabs.len(), 2);
    assert_eq!(grabs[1].name, keys::BACK);
    assert_eq!(grabs[1].mode, KeyGrabMode::Topmost);

    let grabs = compose_grab_keys(vec![], true, true);
    assert_eq!(grabs.len(), 1);
    assert_eq!(grabs[0].mode, KeyGrabMode::Exclusive);

    let grabs = compose_grab_keys(vec![KeyGrab::exclusive(keys::BACK)], true, false);
    assert_eq!(grabs.len(), 1);
    assert_eq!(grabs[0].mode, KeyGrabMode::Exclusive);

    let grabs = compose_grab_keys(vec![KeyGrab::topmost(keys::UP)], false, false);
    assert_eq!(grabs.len(), 1);
}

#[test]
fn close_keys_and_release() {
    let codes = close_keycodes(&vec![166, 5], &vec![9]);
    assert_eq!(codes, vec![158, 0, 1]);
    assert!(closes_on_key(true, 158, false, &codes));
    assert!(!closes_on_key(true, 158, true, &codes));
    assert!(!closes_on_key(false, 158, false, &codes));
    assert!(!closes_on_key(true, 28, false, &codes));
}

#[test]
fn names_default_to_app_name() {
    let (t, a) = window_names("", "", "newsroom");
    assert_eq!(t, "newsroom");
    assert_eq!(a, "newsroom");
    let (t, a) = window_names("News", "rust.tizen.news", "newsroom");
    assert_eq!(t, "News");
    assert_eq!(a, "rust.tizen.news");
}

#[test]
fn config_with_alpha() {
    assert_eq!(first_with_alpha(&vec![0, 0, 8, 8]), Some(2));
    assert_eq!(first_with_alpha(&vec![0, 4]), None);
    assert_eq!(first_with_alpha(&vec![]), None);
}

#[test]
fn key_mapping() {
    assert_eq!(map_key(1), Some(Key::Escape));
    assert_eq!(map_key(158), Some(Key::Escape));
    assert_eq!(map_key(14), Some(Key::Backspace));
    assert_eq!(map_key(28), Some(Key::Enter));
    assert_eq!(map_key(103), Some(Key::ArrowUp));
    assert_eq!(map_key(108), Some(Key::ArrowDown));
    assert_eq!(map_key(111), Some(Key::Delete));
    assert_eq!(map_key(30), None);
}

#[test]
fn button_and_modifier_mapping() {
    assert_eq!(map_mouse_button(MouseButton::Left), Some(PointerButton::Primary));
    assert_eq!(map_mouse_button(MouseButton::Right), Some(PointerButton::Secondary));
    assert_eq!(map_mouse_button(MouseButton::Middle), Some(PointerButton::Middle));
    assert_eq!(map_mouse_button(MouseButton::Back), Some(PointerButton::Extra1));
    assert_eq!(map_mouse_button(MouseButton::Forward), Some(PointerButton::Extra2));
    assert_eq!(map_mouse_button(MouseButton::Other(9)), None);
    let m = map_modifiers(ModifiersState::from_bits_truncate(
        ModifiersState::CTRL | ModifiersState::ALT,
    ));
    assert_eq!(
        m,
        Modifiers { alt: true, ctrl: true, shift: false, mac_cmd: false, command: true }
    );
    assert_eq!(map_modifiers(ModifiersState::empty()), Modifiers::default());
}

#[test]
fn text_comparison() {
    assert!(same_text("XF86Back", keys::BACK));
    assert!(!same_text("XF86Bac", keys::BACK));
    assert!(!same_text("xf86back", keys::BACK));
}

#[test]
fn input_state_tracks_pointer_focus_and_modifiers() {
    let mut st = InputState::new();
    assert!(st.focused);
    assert!(!st.pointer_inside);
    let left = WindowInput::MouseInput { button: MouseButton::Left, pressed: true };
    assert_eq!(st.handle(left), None);
    assert_eq!(st.handle(WindowInput::CursorEntered), Some(EguiInput::PointerMoved));
    assert!(st.pointer_inside);
    assert_eq!(
        st.handle(left),
        Some(EguiInput::PointerButton {
            button: PointerButton::Primary,
            pressed: true,
            modifiers: Modifiers::default(),
        })
    );
    let other = WindowInput::MouseInput { button: MouseButton::Other(7), pressed: true };
    assert_eq!(st.handle(other), None);
    assert_eq!(st.handle(WindowInput::CursorLeft), Some(EguiInput::PointerGone));
    assert_eq!(st.handle(left), None);
    assert_eq!(st.handle(WindowInput::Focused(false)), Some(EguiInput::WindowFocused(false)));
    assert!(!st.focused);
    let shift = ModifiersState::from_bits_truncate(ModifiersState::SHIFT);
    let key = WindowInput::KeyboardInput { keycode: 28, pressed: false, modifiers: shift };
    let with_shift = Modifiers { shift: true, ..Modifiers::default() };
    assert_eq!(
        st.handle(key),
        Some(EguiInput::Key { key: Key::Enter, pressed: false, modifiers: with_shift })
    );
    assert_eq!(st.modifiers, with_shift);
    let unknown = WindowInput::KeyboardInput { keycode: 30, pressed: true, modifiers: ModifiersState::empty() };
    assert_eq!(st.handle(unknown), None);
    assert_eq!(st.modifiers, Modifiers::default());
    assert_eq!(st.handle(WindowInput::MouseWheel), Some(EguiInput::MouseWheel { modifiers: Modifiers::default() }));
    assert_eq!(st.handle(WindowInput::Resized), None);
    assert_eq!(st.handle(WindowInput::RedrawRequested), None);
    assert_eq!(st.handle(WindowInput::CloseRequested), None);
}

#[test]
fn composing_twice_changes_nothing() {
    let once = compose_grab_keys(vec![KeyGrab::topmost(keys::UP)], true, true);
    let twice = compose_grab_keys(once.clone(), true, true);
    assert_eq!(once.len(), twice.len());
    for (a, b) in once.iter().zip(twice.iter()) {
        assert_eq!(a.name, b.name);
        assert_eq!(a.mode, b.mode);
    }
}

#[test]
fn runner_counts_painted_frames_and_redraws_on_input() {
    let close_keys = vec![158u32, 1];
    let mut r = RunnerState::new();
    assert_eq!(r.frame_nr, 0);
    let none = RunnerActions { close: false, input: None, resize: false, paint: false, redraw: false };

    let a = r.on_event(WindowInput::RedrawRequested, true, &close_keys);
    assert_eq!(a, RunnerActions { paint: true, ..none });
    let f = r.frame(Instant::now(), (1920, 1080));
    assert_eq!(f.frame_nr(), 0);
    assert!(!r.on_painted(false, &f, PaintResult { repaint_requested: false }));
    assert_eq!(r.frame_nr, 1);
    assert!(r.on_painted(true, &f, PaintResult { repaint_requested: false }));
    assert_eq!(r.frame_nr, 2);

    let a = r.on_event(WindowInput::Resized, true, &close_keys);
    assert_eq!(a, RunnerActions { resize: true, redraw: true, ..none });
    assert_eq!(r.frame_nr, 2);

    let a = r.on_event(WindowInput::CursorMoved, true, &close_keys);
    assert_eq!(a, RunnerActions { input: Some(EguiInput::PointerMoved), redraw: true, ..none });
    assert!(r.input.pointer_inside);

    let a = r.on_event(WindowInput::CloseRequested, true, &close_keys);
    assert_eq!(a, none);

    // An unmapped key produces no input and asks for no frame.
    let a = r.on_event(
        WindowInput::KeyboardInput { keycode: 30, pressed: true, modifiers: ModifiersState::empty() },
        true,
        &close_keys,
    );
    assert_eq!(a, none);
}

#[test]
fn runner_closes_on_release_of_a_close_key() {
    let close_keys = vec![158u32, 1];
    let mut r = RunnerState::new();
    let press = WindowInput::KeyboardInput { keycode: 158, pressed: true, modifiers: ModifiersState::empty() };
    let release = WindowInput::KeyboardInput { keycode: 158, pressed: false, modifiers: ModifiersState::empty() };
    let a = r.on_event(press, true, &close_keys);
    assert!(!a.close);
    assert!(a.redraw);
    let a = r.on_event(release, true, &close_keys);
    assert!(a.close);
    assert_eq!(
        a.input,
        Some(EguiInput::Key { key: Key::Escape, pressed: false, modifiers: Modifiers::default() })
    );
    let a = r.on_event(release, false, &close_keys);
    assert!(!a.close);
}

#[test]
fn native_options_defaults() {
    let o = NativeOptions::default();
    assert_eq!(o.title, "tizen-eframe");
    assert_eq!(o.app_id, "rust.tizen.eframe");
    assert_eq!(o.size, (1920, 1080));
    assert!(!o.continuous_repaint);
    assert_eq!(o.window_type, WindowType::Toplevel);
    assert!(!o.transparent);
    assert!(!o.focus_skip);
    assert!(o.grab_keys.is_empty());
    assert!(o.close_on_back);
}

#[test]
fn native_window_from_options() {
    let o = NativeOptions {
        title: String::new(),
        app_id: "org.example.chat".to_string(),
        size: (640, 360),
        window_type: WindowType::Floating,
        focus_skip: true,
        grab_keys: vec![KeyGrab::topmost(keys::UP)],
        ..NativeOptions::default()
    };
    let b = native_window(o, "chat");
    assert_eq!(b.title_text().map(|s| s.as_str()), Some("chat"));
    assert_eq!(b.app_id_text().map(|s| s.as_str()), Some("org.example.chat"));
    assert!(!b.is_transparent());
    let grabs = b.key_grabs();
    assert_eq!(grabs.len(), 2);
    assert_eq!(grabs[0].name, keys::UP);
    assert_eq!(grabs[1].name, keys::BACK);
    assert_eq!(grabs[1].mode, KeyGrabMode::Exclusive);
}

#[test]
fn painted_frames_are_numbered_from_zero_in_order() {
    let close_keys: Vec<u32> = vec![];
    let mut r = RunnerState::new();
    let events = [
        WindowInput::RedrawRequested,
        WindowInput::CursorMoved,
        WindowInput::Resized,
        WindowInput::RedrawRequested,
        WindowInput::Focused(false),
        WindowInput::RedrawRequested,
    ];
    let mut numbers = Vec::new();
    for ev in events {
        let a = r.on_event(ev, true, &close_keys);
        if a.paint {
            let f = r.frame(Instant::now(), (8, 8));
            numbers.push(f.frame_nr());
            r.on_painted(false, &f, PaintResult { repaint_requested: false });
        }
    }
    assert_eq!(numbers, vec![0, 1, 2]);
    assert_eq!(r.frame_nr, 3);
}
