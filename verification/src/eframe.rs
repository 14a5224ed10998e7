//! Decisions of the egui runner on Tizen: frame bookkeeping, the key grabs
//! and close keys of a native run, and the mapping of window input
//! into egui's keys, buttons and modifiers.

use vstd::prelude::*;

use crate::keys;
use crate::text::same_text;
use crate::window::{
    KeyGrab, KeyGrabMode, ModifiersState, MouseButton, WindowBuilder, WindowBuilderView, WindowType,
};

verus! {

/// `std::time::Instant`, carried through as an opaque value.
#[verifier::external_type_specification]
#[verifier::external_body]
pub struct ExInstant(std::time::Instant);

/// Time since `start`: `Instant::elapsed`. It depends on the clock, so
/// nothing is stated of it.
#[verifier::external_body]
fn elapsed_since(start: &std::time::Instant) -> std::time::Duration {
    start.elapsed()
}

/// Per-frame information passed to the application's update.
#[derive(Debug)]
pub struct Frame {
    frame_nr: u64,
    start_time: std::time::Instant,
    size: (u32, u32),
    repaint_requested: bool,
}

impl Frame {
    /// Number of frames painted before this one.
    pub closed spec fn frame_nr_view(&self) -> u64 {
        self.frame_nr
    }

    /// Window size in physical pixels.
    pub closed spec fn size_view(&self) -> (u32, u32) {
        self.size
    }

    /// Whether another frame was asked for.
    pub closed spec fn repaint_view(&self) -> bool {
        self.repaint_requested
    }

    /// The frame numbered `frame_nr` of a run that started at `start_time`,
    /// for a window of `size`, with no repaint asked for yet.
    pub fn new(frame_nr: u64, start_time: std::time::Instant, size: (u32, u32)) -> (r: Self)
        ensures
            r.frame_nr_view() == frame_nr,
            r.size_view() == size,
            !r.repaint_view(),
    {
        Frame { frame_nr, start_time, size, repaint_requested: false }
    }

    /// Number of frames painted since startup.
    pub fn frame_nr(&self) -> (r: u64)
        ensures
            r == self.frame_nr_view(),
    {
        self.frame_nr
    }

    /// Elapsed time since the runner started.
    pub fn elapsed(&self) -> std::time::Duration {
        elapsed_since(&self.start_time)
    }

    /// Current window size in physical pixels.
    pub fn size(&self) -> (r: (u32, u32))
        ensures
            r == self.size_view(),
    {
        self.size
    }

    /// Ask the runner to schedule another frame.
    pub fn request_repaint(&mut self)
        ensures
            final(self).repaint_view(),
            final(self).frame_nr_view() == old(self).frame_nr_view(),
            final(self).size_view() == old(self).size_view(),
    {
        self.repaint_requested = true;
    }

    /// Whether another frame was asked for during this one.
    pub fn repaint_requested(&self) -> (r: bool)
        ensures
            r == self.repaint_view(),
    {
        self.repaint_requested
    }
}

/// Result of painting one egui frame.
#[derive(Debug, Clone, Copy, PartialEq, Eq, Structural)]
pub struct PaintResult {
    /// True if egui requested another repaint during this frame.
    pub repaint_requested: bool,
}

/// Whether to ask for another frame after painting one: always in
/// continuous mode, otherwise when the application or egui asked.
pub fn repaint_after_frame(continuous_repaint: bool, frame: &Frame, paint: PaintResult) -> (r: bool)
    ensures
        r == (continuous_repaint || frame.repaint_view() || paint.repaint_requested),
{
    continuous_repaint || frame.repaint_requested() || paint.repaint_requested
}

/// Some grab in `grabs` is for the key named `name`.
pub open spec fn has_grab_named(grabs: Seq<KeyGrab>, name: Seq<char>) -> bool {
    exists|i: int| 0 <= i < grabs.len() && (#[trigger] grabs[i]).name@ == name
}

/// The grabs of a native run: the application's own, plus a grab of the
/// Back key when the run closes on Back and no grab names it yet; that
/// grab is exclusive for windows that skip focus, topmost otherwise.
pub open spec fn composed_grabs(grabs: Seq<KeyGrab>, close_on_back: bool, focus_skip: bool) -> Seq<KeyGrab> {
    if close_on_back && !has_grab_named(grabs, keys::BACK@) {
        grabs.push(KeyGrab {
            name: keys::BACK,
            mode: if focus_skip { KeyGrabMode::Exclusive } else { KeyGrabMode::Topmost },
        })
    } else {
        grabs
    }
}

/// Compose the key grabs of a native run (see [`composed_grabs`]).
pub fn compose_grab_keys(grab_keys: Vec<KeyGrab>, close_on_back: bool, focus_skip: bool) -> (r: Vec<KeyGrab>)
    ensures
        r@ == composed_grabs(grab_keys@, close_on_back, focus_skip),
{
    let mut grabs = grab_keys;
    if !close_on_back {
        return grabs;
    }
    let mut found = false;
    for i in 0..grabs.len()
        invariant
            found == (exists|j: int| 0 <= j < i && (#[trigger] grabs@[j]).name@ == keys::BACK@),
    {
        if same_text(grabs[i].name, keys::BACK) {
            found = true;
        }
    }
    if !found {
        let mode = if focus_skip { KeyGrabMode::Exclusive } else { KeyGrabMode::Topmost };
        grabs.push(KeyGrab { name: keys::BACK, mode });
    }
    grabs
}

/// `k - 8`, or 0 below 8: an XKB keycode as the kernel's evdev code.
pub open spec fn evdev_of_xkb(k: u32) -> u32 {
    if k >= 8 { (k - 8) as u32 } else { 0 }
}

/// The evdev codes of the close keys: the XKB keycodes of Back followed by
/// those of Escape, each less 8 (saturating at 0).
pub fn close_keycodes(back: &Vec<u32>, escape: &Vec<u32>) -> (r: Vec<u32>)
    ensures
        r@ == (back@ + escape@).map_values(|k: u32| evdev_of_xkb(k)),
{
    let mut out: Vec<u32> = Vec::new();
    for i in 0..back.len()
        invariant
            out@ == back@.subrange(0, i as int).map_values(|k: u32| evdev_of_xkb(k)),
    {
        out.push(back[i].saturating_sub(8));
        assert(back@.subrange(0, i + 1) == back@.subrange(0, i as int).push(back@[i as int]));
        assert(out@ =~= back@.subrange(0, i + 1).map_values(|k: u32| evdev_of_xkb(k)));
    }
    assert(back@.subrange(0, back@.len() as int) == back@);
    let ghost mid = out@;
    for i in 0..escape.len()
        invariant
            mid == back@.map_values(|k: u32| evdev_of_xkb(k)),
            out@ == mid + escape@.subrange(0, i as int).map_values(|k: u32| evdev_of_xkb(k)),
    {
        out.push(escape[i].saturating_sub(8));
        assert(escape@.subrange(0, i + 1) == escape@.subrange(0, i as int).push(escape@[i as int]));
        assert(out@ =~= mid + escape@.subrange(0, i + 1).map_values(|k: u32| evdev_of_xkb(k)));
    }
    assert(escape@.subrange(0, escape@.len() as int) == escape@);
    assert(out@ =~= (back@ + escape@).map_values(|k: u32| evdev_of_xkb(k)));
    out
}

/// Whether a key event closes the run: with close-on-Back on, the release
/// of one of the close keys does.
pub fn closes_on_key(close_on_back: bool, keycode: u32, pressed: bool, close_keys: &Vec<u32>) -> (r: bool)
    ensures
        r == (close_on_back && !pressed && close_keys@.contains(keycode)),
{
    if !close_on_back || pressed {
        return false;
    }
    for i in 0..close_keys.len()
        invariant
            close_on_back && !pressed,
            forall|j: int| 0 <= j < i ==> close_keys@[j] != keycode,
    {
        if close_keys[i] == keycode {
            assert(close_keys@[i as int] == keycode);
            assert(close_keys@.contains(keycode));
            return true;
        }
    }
    assert(!close_keys@.contains(keycode));
    false
}

/// The title and application id of a native run: the given ones, or the
/// application name where they are empty.
pub fn window_names(title: &str, app_id: &str, app_name: &str) -> (r: (String, String))
    ensures
        r.0@ == (if title@.len() == 0 { app_name@ } else { title@ }),
        r.1@ == (if app_id@.len() == 0 { app_name@ } else { app_id@ }),
{
    let t = if title.is_empty() { String::from_str(app_name) } else { String::from_str(title) };
    let a = if app_id.is_empty() { String::from_str(app_name) } else { String::from_str(app_id) };
    (t, a)
}

/// The first EGL config, by index, whose alpha size is at least 8.
pub fn first_with_alpha(alpha_sizes: &Vec<i32>) -> (r: Option<usize>)
    ensures
        match r {
            Some(i) => i < alpha_sizes@.len() && alpha_sizes@[i as int] >= 8 && forall|j: int|
                0 <= j < i ==> alpha_sizes@[j] < 8,
            None => forall|j: int| 0 <= j < alpha_sizes@.len() ==> alpha_sizes@[j] < 8,
        },
{
    for i in 0..alpha_sizes.len()
        invariant
            forall|j: int| 0 <= j < i ==> alpha_sizes@[j] < 8,
    {
        if alpha_sizes[i] >= 8 {
            return Some(i);
        }
    }
    None
}

/// The egui keys that window key events map onto.
#[derive(Debug, Clone, Copy, PartialEq, Eq, Structural)]
pub enum Key {
    Escape,
    Backspace,
    Tab,
    Enter,
    Space,
    Home,
    ArrowUp,
    PageUp,
    ArrowLeft,
    ArrowRight,
    End,
    ArrowDown,
    PageDown,
    Insert,
    Delete,
}

/// The key an evdev keycode maps onto, if any.
pub open spec fn key_of(keycode: u32) -> Option<Key> {
    if keycode == 1 || keycode == 158 {
        Some(Key::Escape)
    } else if keycode == 14 {
        Some(Key::Backspace)
    } else if keycode == 15 {
        Some(Key::Tab)
    } else if keycode == 28 {
        Some(Key::Enter)
    } else if keycode == 57 {
        Some(Key::Space)
    } else if keycode == 102 {
        Some(Key::Home)
    } else if keycode == 103 {
        Some(Key::ArrowUp)
    } else if keycode == 104 {
        Some(Key::PageUp)
    } else if keycode == 105 {
        Some(Key::ArrowLeft)
    } else if keycode == 106 {
        Some(Key::ArrowRight)
    } else if keycode == 107 {
        Some(Key::End)
    } else if keycode == 108 {
        Some(Key::ArrowDown)
    } else if keycode == 109 {
        Some(Key::PageDown)
    } else if keycode == 110 {
        Some(Key::Insert)
    } else if keycode == 111 {
        Some(Key::Delete)
    } else {
        None
    }
}

/// Map an evdev keycode onto an egui key; `KEY_ESC` and `KEY_BACK`
/// both become Escape.
pub fn map_key(keycode: u32) -> (r: Option<Key>)
    ensures
        r == key_of(keycode),
{
    match keycode {
        1 | 158 => Some(Key::Escape),
        14 => Some(Key::Backspace),
        15 => Some(Key::Tab),
        28 => Some(Key::Enter),
        57 => Some(Key::Space),
        102 => Some(Key::Home),
        103 => Some(Key::ArrowUp),
        104 => Some(Key::PageUp),
        105 => Some(Key::ArrowLeft),
        106 => Some(Key::ArrowRight),
        107 => Some(Key::End),
        108 => Some(Key::ArrowDown),
        109 => Some(Key::PageDown),
        110 => Some(Key::Insert),
        111 => Some(Key::Delete),
        _ => None,
    }
}

/// The key table, key by key, after the evdev codes of
/// `linux/input-event-codes.h`: `KEY_ESC` (1) and `KEY_BACK` (158) are
/// Escape, `KEY_BACKSPACE` 14, `KEY_TAB` 15, `KEY_ENTER` 28, `KEY_SPACE` 57,
/// `KEY_HOME` 102, `KEY_UP` 103, `KEY_PAGEUP` 104, `KEY_LEFT` 105,
/// `KEY_RIGHT` 106, `KEY_END` 107, `KEY_DOWN` 108, `KEY_PAGEDOWN` 109,
/// `KEY_INSERT` 110 and `KEY_DELETE` 111 are the key of the same name, and
/// no other code is any key.
pub proof fn lemma_key_table(keycode: u32)
    ensures
        key_of(keycode) == Some(Key::Escape) <==> (keycode == 1 || keycode == 158),
        key_of(keycode) == Some(Key::Backspace) <==> keycode == 14,
        key_of(keycode) == Some(Key::Tab) <==> keycode == 15,
        key_of(keycode) == Some(Key::Enter) <==> keycode == 28,
        key_of(keycode) == Some(Key::Space) <==> keycode == 57,
        key_of(keycode) == Some(Key::Home) <==> keycode == 102,
        key_of(keycode) == Some(Key::ArrowUp) <==> keycode == 103,
        key_of(keycode) == Some(Key::PageUp) <==> keycode == 104,
        key_of(keycode) == Some(Key::ArrowLeft) <==> keycode == 105,
        key_of(keycode) == Some(Key::ArrowRight) <==> keycode == 106,
        key_of(keycode) == Some(Key::End) <==> keycode == 107,
        key_of(keycode) == Some(Key::ArrowDown) <==> keycode == 108,
        key_of(keycode) == Some(Key::PageDown) <==> keycode == 109,
        key_of(keycode) == Some(Key::Insert) <==> keycode == 110,
        key_of(keycode) == Some(Key::Delete) <==> keycode == 111,
        key_of(keycode) is None <==> !(keycode == 1 || keycode == 158 || keycode == 14 || keycode == 15
            || keycode == 28 || keycode == 57 || (102 <= keycode <= 111)),
{
}

/// The egui pointer buttons.
#[derive(Debug, Clone, Copy, PartialEq, Eq, Structural)]
pub enum PointerButton {
    Primary,
    Secondary,
    Middle,
    Extra1,
    Extra2,
}

/// The egui button a window mouse button stands for, if any.
pub open spec fn pointer_button_of(button: MouseButton) -> Option<PointerButton> {
    match button {
        MouseButton::Left => Some(PointerButton::Primary),
        MouseButton::Right => Some(PointerButton::Secondary),
        MouseButton::Middle => Some(PointerButton::Middle),
        MouseButton::Back => Some(PointerButton::Extra1),
        MouseButton::Forward => Some(PointerButton::Extra2),
        MouseButton::Other(_) => None,
    }
}

/// The pointer buttons, button by button: Left is Primary, Right
/// Secondary, Middle Middle, Back Extra1, Forward Extra2, and no other
/// button is any.
pub proof fn lemma_pointer_button_table(button: MouseButton)
    ensures
        pointer_button_of(button) == Some(PointerButton::Primary) <==> button == MouseButton::Left,
        pointer_button_of(button) == Some(PointerButton::Secondary) <==> button == MouseButton::Right,
        pointer_button_of(button) == Some(PointerButton::Middle) <==> button == MouseButton::Middle,
        pointer_button_of(button) == Some(PointerButton::Extra1) <==> button == MouseButton::Back,
        pointer_button_of(button) == Some(PointerButton::Extra2) <==> button == MouseButton::Forward,
        pointer_button_of(button) is None <==> button is Other,
{
}

/// Map a window mouse button onto an egui pointer button.
pub fn map_mouse_button(button: MouseButton) -> (r: Option<PointerButton>)
    ensures
        r == pointer_button_of(button),
{
    match button {
        MouseButton::Left => Some(PointerButton::Primary),
        MouseButton::Right => Some(PointerButton::Secondary),
        MouseButton::Middle => Some(PointerButton::Middle),
        MouseButton::Back => Some(PointerButton::Extra1),
        MouseButton::Forward => Some(PointerButton::Extra2),
        MouseButton::Other(_) => None,
    }
}

/// egui's modifier flags.
#[derive(Debug, Clone, Copy, PartialEq, Eq, Default, Structural)]
pub struct Modifiers {
    pub alt: bool,
    pub ctrl: bool,
    pub shift: bool,
    pub mac_cmd: bool,
    pub command: bool,
}

/// Map window modifier state onto egui modifiers: Control also acts
/// as the command key, and there is no macOS command key.
pub fn map_modifiers(modifiers: ModifiersState) -> (r: Modifiers)
    ensures
        r == (Modifiers {
            alt: modifiers.bits & ModifiersState::ALT == ModifiersState::ALT,
            ctrl: modifiers.bits & ModifiersState::CTRL == ModifiersState::CTRL,
            shift: modifiers.bits & ModifiersState::SHIFT == ModifiersState::SHIFT,
            mac_cmd: false,
            command: modifiers.bits & ModifiersState::CTRL == ModifiersState::CTRL,
        }),
{
    let ctrl = modifiers.contains(ModifiersState::CTRL);
    Modifiers {
        alt: modifiers.contains(ModifiersState::ALT),
        ctrl,
        shift: modifiers.contains(ModifiersState::SHIFT),
        mac_cmd: false,
        command: ctrl,
    }
}

/// A window event as the egui adapter reads it; pointer positions and
/// wheel deltas travel beside it.
#[derive(Debug, Clone, Copy, PartialEq, Eq, Structural)]
pub enum WindowInput {
    /// Keyboard focus gained (`true`) or lost.
    Focused(bool),
    /// The pointer entered the surface.
    CursorEntered,
    /// The pointer moved inside the surface.
    CursorMoved,
    /// The pointer left the surface.
    CursorLeft,
    /// A mouse button was pressed or released.
    MouseInput { button: MouseButton, pressed: bool },
    /// The wheel turned.
    MouseWheel,
    /// A key was pressed or released.
    KeyboardInput { keycode: u32, pressed: bool, modifiers: ModifiersState },
    /// The window was resized.
    Resized,
    /// Time to paint.
    RedrawRequested,
    /// The window is asked to close.
    CloseRequested,
}

/// The egui input produced for a window event; positions and deltas are
/// those that travel beside the event (for a button, the last pointer
/// position).
#[derive(Debug, Clone, Copy, PartialEq, Eq, Structural)]
pub enum EguiInput {
    /// `WindowFocused`.
    WindowFocused(bool),
    /// `PointerMoved` to the event's position.
    PointerMoved,
    /// `PointerGone`.
    PointerGone,
    /// `PointerButton` at the last pointer position.
    PointerButton { button: PointerButton, pressed: bool, modifiers: Modifiers },
    /// `MouseWheel` by the event's delta, in lines.
    MouseWheel { modifiers: Modifiers },
    /// `Key`.
    Key { key: Key, pressed: bool, modifiers: Modifiers },
}

/// What the egui adapter remembers between window events.
#[derive(Debug, Clone, Copy, PartialEq, Eq, Structural)]
pub struct InputState {
    /// The window has keyboard focus.
    pub focused: bool,
    /// The pointer is over the surface (its position is known).
    pub pointer_inside: bool,
    /// The modifiers of the last key event.
    pub modifiers: Modifiers,
}

/// The state after a window event and the egui input it produces; an event
/// asks for a repaint exactly when it produces input.
pub open spec fn input_transition(s: InputState, ev: WindowInput) -> (InputState, Option<EguiInput>) {
    match ev {
        WindowInput::Focused(f) => (InputState { focused: f, ..s }, Some(EguiInput::WindowFocused(f))),
        WindowInput::CursorEntered => (InputState { pointer_inside: true, ..s }, Some(EguiInput::PointerMoved)),
        WindowInput::CursorMoved => (InputState { pointer_inside: true, ..s }, Some(EguiInput::PointerMoved)),
        WindowInput::CursorLeft => (InputState { pointer_inside: false, ..s }, Some(EguiInput::PointerGone)),
        WindowInput::MouseInput { button, pressed } => (
            s,
            if s.pointer_inside && pointer_button_of(button) is Some {
                Some(EguiInput::PointerButton {
                    button: pointer_button_of(button)->0,
                    pressed,
                    modifiers: s.modifiers,
                })
            } else {
                None
            },
        ),
        WindowInput::MouseWheel => (s, Some(EguiInput::MouseWheel { modifiers: s.modifiers })),
        WindowInput::KeyboardInput { keycode, pressed, modifiers } => {
            let m = Modifiers {
                alt: modifiers.bits & ModifiersState::ALT == ModifiersState::ALT,
                ctrl: modifiers.bits & ModifiersState::CTRL == ModifiersState::CTRL,
                shift: modifiers.bits & ModifiersState::SHIFT == ModifiersState::SHIFT,
                mac_cmd: false,
                command: modifiers.bits & ModifiersState::CTRL == ModifiersState::CTRL,
            };
            (
                InputState { modifiers: m, ..s },
                match key_of(keycode) {
                    Some(key) => Some(EguiInput::Key { key, pressed, modifiers: m }),
                    None => None,
                },
            )
        },
        WindowInput::Resized => (s, None),
        WindowInput::RedrawRequested => (s, None),
        WindowInput::CloseRequested => (s, None),
    }
}

impl InputState {
    /// A focused window with the pointer elsewhere and no modifier held.
    pub fn new() -> (r: Self)
        ensures
            r == (InputState {
                focused: true,
                pointer_inside: false,
                modifiers: Modifiers { alt: false, ctrl: false, shift: false, mac_cmd: false, command: false },
            }),
    {
        InputState {
            focused: true,
            pointer_inside: false,
            modifiers: Modifiers { alt: false, ctrl: false, shift: false, mac_cmd: false, command: false },
        }
    }

    /// Take in a window event: update what is remembered and return the
    /// egui input to queue, if any (see [`input_transition`]).
    pub fn handle(&mut self, ev: WindowInput) -> (r: Option<EguiInput>)
        ensures
            (*final(self), r) == input_transition(*old(self), ev),
    {
        match ev {
            WindowInput::Focused(f) => {
                self.focused = f;
                Some(EguiInput::WindowFocused(f))
            },
            WindowInput::CursorEntered | WindowInput::CursorMoved => {
                self.pointer_inside = true;
                Some(EguiInput::PointerMoved)
            },
            WindowInput::CursorLeft => {
                self.pointer_inside = false;
                Some(EguiInput::PointerGone)
            },
            WindowInput::MouseInput { button, pressed } => {
                match map_mouse_button(button) {
                    Some(b) => {
                        if self.pointer_inside {
                            Some(EguiInput::PointerButton { button: b, pressed, modifiers: self.modifiers })
                        } else {
                            None
                        }
                    },
                    None => None,
                }
            },
            WindowInput::MouseWheel => Some(EguiInput::MouseWheel { modifiers: self.modifiers }),
            WindowInput::KeyboardInput { keycode, pressed, modifiers } => {
                self.modifiers = map_modifiers(modifiers);
                match map_key(keycode) {
                    Some(key) => Some(EguiInput::Key { key, pressed, modifiers: self.modifiers }),
                    None => None,
                }
            },
            WindowInput::Resized | WindowInput::RedrawRequested | WindowInput::CloseRequested => None,
        }
    }
}

/// What the runner keeps between window events: the number of frames
/// painted so far and the state of the egui input adapter.
#[derive(Debug, Clone, Copy, PartialEq, Eq, Structural)]
pub struct RunnerState {
    /// Frames painted since startup.
    pub frame_nr: u64,
    /// What the input adapter remembers.
    pub input: InputState,
}

/// What the runner does for one window event, in this order: mark the
/// window to close, queue the egui input, resize the EGL window to the
/// event's size, paint a frame, ask for another frame.
#[derive(Debug, Clone, Copy, PartialEq, Eq, Structural)]
pub struct RunnerActions {
    /// A close key was released: the window is to close.
    pub close: bool,
    /// Egui input to queue.
    pub input: Option<EguiInput>,
    /// The window was resized: resize the EGL window.
    pub resize: bool,
    /// Time to paint: run the application's update on the frame numbered
    /// [`RunnerState::frame_nr`], then report with
    /// [`RunnerState::on_painted`].
    pub paint: bool,
    /// Ask for another frame.
    pub redraw: bool,
}

/// The runner's state after a window event and what it does for it: the
/// release of a close key closes (with close-on-Back on); the input adapter
/// takes the event; a resize resizes and asks for a frame, a redraw paints,
/// a close request does nothing more, and any other event asks for a frame
/// exactly when it produced egui input. The frame count is untouched.
pub open spec fn runner_event(s: RunnerState, ev: WindowInput, close_on_back: bool, close_keys: Seq<u32>) -> (RunnerState, RunnerActions) {
    let t = input_transition(s.input, ev);
    (
        RunnerState { input: t.0, ..s },
        RunnerActions {
            close: match ev {
                WindowInput::KeyboardInput { keycode, pressed, .. } => close_on_back && !pressed
                    && close_keys.contains(keycode),
                _ => false,
            },
            input: t.1,
            resize: ev is Resized,
            paint: ev is RedrawRequested,
            redraw: match ev {
                WindowInput::Resized => true,
                WindowInput::RedrawRequested => false,
                WindowInput::CloseRequested => false,
                _ => t.1 is Some,
            },
        },
    )
}

impl RunnerState {
    /// No frame painted yet, and a fresh input adapter.
    pub fn new() -> (r: Self)
        ensures
            r.frame_nr == 0,
            r.input == (InputState {
                focused: true,
                pointer_inside: false,
                modifiers: Modifiers { alt: false, ctrl: false, shift: false, mac_cmd: false, command: false },
            }),
    {
        RunnerState { frame_nr: 0, input: InputState::new() }
    }

    /// Take in one window event (see [`runner_event`]).
    pub fn on_event(&mut self, ev: WindowInput, close_on_back: bool, close_keys: &Vec<u32>) -> (r: RunnerActions)
        ensures
            (*final(self), r) == runner_event(*old(self), ev, close_on_back, close_keys@),
    {
        let close = match ev {
            WindowInput::KeyboardInput { keycode, pressed, .. } => closes_on_key(close_on_back, keycode, pressed, close_keys),
            _ => false,
        };
        let mut input = self.input;
        let queued = input.handle(ev);
        self.input = input;
        let (resize, paint, redraw) = match ev {
            WindowInput::Resized => (true, false, true),
            WindowInput::RedrawRequested => (false, true, false),
            WindowInput::CloseRequested => (false, false, false),
            _ => (false, false, queued.is_some()),
        };
        RunnerActions { close, input: queued, resize, paint, redraw }
    }

    /// The frame handed to the application's update when painting now.
    pub fn frame(&self, start_time: std::time::Instant, size: (u32, u32)) -> (r: Frame)
        ensures
            r.frame_nr_view() == self.frame_nr,
            r.size_view() == size,
            !r.repaint_view(),
    {
        Frame::new(self.frame_nr, start_time, size)
    }

    /// A frame was painted: count it, and say whether to ask for another
    /// (see [`repaint_after_frame`]).
    pub fn on_painted(&mut self, continuous_repaint: bool, frame: &Frame, paint: PaintResult) -> (redraw: bool)
        requires
            old(self).frame_nr < u64::MAX,
        ensures
            *final(self) == (RunnerState { frame_nr: (old(self).frame_nr + 1) as u64, ..*old(self) }),
            redraw == (continuous_repaint || frame.repaint_view() || paint.repaint_requested),
    {
        self.frame_nr = self.frame_nr + 1;
        repaint_after_frame(continuous_repaint, frame, paint)
    }
}

/// A window event never changes the frame count; it paints exactly when it
/// is a redraw request, and asks for another frame exactly when it is a
/// resize or produced egui input.
pub proof fn lemma_runner_event(s: RunnerState, ev: WindowInput, close_on_back: bool, close_keys: Seq<u32>)
    ensures
        ({
            let (next, act) = runner_event(s, ev, close_on_back, close_keys);
            &&& next.frame_nr == s.frame_nr
            &&& act.paint <==> ev is RedrawRequested
            &&& act.redraw <==> (ev is Resized || input_transition(s.input, ev).1 is Some)
            &&& act.input == input_transition(s.input, ev).1
            &&& act.resize <==> ev is Resized
            &&& act.close <==> (ev matches WindowInput::KeyboardInput { keycode, pressed, .. } && close_on_back
                && !pressed && close_keys.contains(keycode))
        }),
{
}

/// What the input adapter does with each kind of window event: focus
/// changes are passed on and remembered; the pointer is inside after it
/// enters or moves and outside after it leaves, each passed on; a button
/// is passed on, with the remembered modifiers, exactly when the pointer is
/// inside and the button is one egui knows; the wheel is always passed on;
/// a key event makes its modifiers the remembered ones and is passed on
/// exactly when its code is a key; resizes, redraws and close requests
/// produce nothing and change nothing.
pub proof fn lemma_input_adapter(s: InputState, ev: WindowInput)
    ensures
        ({
            let (n, out) = input_transition(s, ev);
            &&& ev matches WindowInput::Focused(f) ==> n.focused == f && out == Some(
                EguiInput::WindowFocused(f),
            ) && n.pointer_inside == s.pointer_inside
            &&& (ev is CursorEntered || ev is CursorMoved) ==> n.pointer_inside && out == Some(
                EguiInput::PointerMoved,
            )
            &&& ev is CursorLeft ==> !n.pointer_inside && out == Some(EguiInput::PointerGone)
            &&& ev matches WindowInput::MouseInput { button, pressed } ==> n == s && (out is Some <==> (
            s.pointer_inside && pointer_button_of(button) is Some)) && (out is Some ==> out == Some(
                EguiInput::PointerButton {
                    button: pointer_button_of(button)->0,
                    pressed,
                    modifiers: s.modifiers,
                },
            ))
            &&& ev is MouseWheel ==> n == s && out == Some(EguiInput::MouseWheel { modifiers: s.modifiers })
            &&& ev matches WindowInput::KeyboardInput { keycode, pressed, modifiers } ==> n.modifiers.ctrl
                == n.modifiers.command && !n.modifiers.mac_cmd && n.focused == s.focused
                && n.pointer_inside == s.pointer_inside && (out is Some <==> key_of(keycode) is Some)
                && (out is Some ==> out == Some(
                EguiInput::Key { key: key_of(keycode)->0, pressed, modifiers: n.modifiers },
            ))
            &&& (ev is Resized || ev is RedrawRequested || ev is CloseRequested) ==> n == s && out is None
        }),
{
}

/// How many of `evs` are redraw requests.
pub open spec fn redraw_count(evs: Seq<WindowInput>) -> nat
    decreases evs.len(),
{
    if evs.len() == 0 {
        0
    } else {
        redraw_count(evs.drop_last()) + (if evs.last() is RedrawRequested { 1nat } else { 0nat })
    }
}

/// The runner's state after the window events `evs`, starting from `s`,
/// each redraw request being painted at once: [`RunnerState::on_event`]
/// on every event, then [`RunnerState::on_painted`] where it asked to paint.
pub open spec fn runner_after(s: RunnerState, evs: Seq<WindowInput>, close_on_back: bool, close_keys: Seq<u32>) -> RunnerState
    decreases evs.len(),
{
    if evs.len() == 0 {
        s
    } else {
        let prev = runner_after(s, evs.drop_last(), close_on_back, close_keys);
        let (next, act) = runner_event(prev, evs.last(), close_on_back, close_keys);
        if act.paint {
            RunnerState { frame_nr: (next.frame_nr + 1) as u64, ..next }
        } else {
            next
        }
    }
}

/// Redraw requests before index `i`, and how the count grows by one step.
proof fn lemma_redraw_count_prefix(evs: Seq<WindowInput>, i: int)
    requires
        0 <= i < evs.len(),
    ensures
        redraw_count(evs.take(i + 1)) == redraw_count(evs.take(i)) + (if evs[i] is RedrawRequested {
            1nat
        } else {
            0nat
        }),
        redraw_count(evs.take(i + 1)) <= redraw_count(evs),
    decreases evs.len(),
{
    assert(evs.take(i + 1).drop_last() =~= evs.take(i));
    if i + 1 < evs.len() {
        lemma_redraw_count_prefix(evs.drop_last(), i);
        assert(evs.drop_last().take(i + 1) =~= evs.take(i + 1));
        assert(evs.drop_last().take(i) =~= evs.take(i));
    } else {
        assert(evs.take(i + 1) =~= evs);
    }
}

/// Frames are counted from `s`: after the events `evs`, the count has grown
/// by exactly the number of redraw requests among them (as long as the
/// counter does not reach its maximum).
pub proof fn lemma_runner_counts_frames(s: RunnerState, evs: Seq<WindowInput>, close_on_back: bool, close_keys: Seq<u32>)
    requires
        s.frame_nr + redraw_count(evs) <= u64::MAX,
    ensures
        runner_after(s, evs, close_on_back, close_keys).frame_nr == s.frame_nr + redraw_count(evs),
    decreases evs.len(),
{
    if evs.len() > 0 {
        lemma_runner_counts_frames(s, evs.drop_last(), close_on_back, close_keys);
    }
}

/// Frames are numbered in the order they are painted: in a run that starts
/// with no frame painted ([`RunnerState::new`]), the frame handed to the
/// application for the redraw request at index `i` ([`RunnerState::frame`]
/// just before [`RunnerState::on_painted`]) is numbered by the redraw
/// requests before it, and the next one painted is numbered one more: the
/// k-th painted frame, counting from 0, is numbered k, never repeated and
/// never skipped (up to the counter's maximum).
pub proof fn lemma_frames_numbered_in_order(
    evs: Seq<WindowInput>,
    close_on_back: bool,
    close_keys: Seq<u32>,
    input: InputState,
    i: int,
)
    requires
        redraw_count(evs) <= u64::MAX,
        0 <= i < evs.len(),
        evs[i] is RedrawRequested,
    ensures
        ({
            let s0 = RunnerState { frame_nr: 0, input };
            let before = runner_after(s0, evs.take(i), close_on_back, close_keys);
            let at = runner_event(before, evs[i], close_on_back, close_keys);
            &&& at.1.paint
            &&& at.0.frame_nr == redraw_count(evs.take(i))
            &&& runner_after(s0, evs.take(i + 1), close_on_back, close_keys).frame_nr == redraw_count(
                evs.take(i),
            ) + 1
        }),
{
    let s0 = RunnerState { frame_nr: 0, input };
    lemma_redraw_count_prefix(evs, i);
    lemma_runner_counts_frames(s0, evs.take(i), close_on_back, close_keys);
    lemma_runner_counts_frames(s0, evs.take(i + 1), close_on_back, close_keys);
}

/// Options of a native run. The scale (physical pixels per egui point) and
/// the clear colour are floating point and travel beside these.
#[derive(Debug)]
pub struct NativeOptions {
    /// Window title; the application name where empty.
    pub title: String,
    /// Reverse-DNS application id; the application name where empty.
    pub app_id: String,
    /// Requested initial window size in physical pixels.
    pub size: (u32, u32),
    /// Ask for a new frame after every paint.
    pub continuous_repaint: bool,
    /// Tizen-policy window type.
    pub window_type: WindowType,
    /// Mark the surface as alpha-blended.
    pub transparent: bool,
    /// Ask the compositor not to give the window keyboard focus.
    pub focus_skip: bool,
    /// Keys to grab with `tizen_keyrouter`.
    pub grab_keys: Vec<KeyGrab>,
    /// Grab Back and close the window when Back or Escape is released.
    pub close_on_back: bool,
}

impl Default for NativeOptions {
    /// Title `tizen-eframe`, app id `rust.tizen.eframe`, 1920 x 1080, no
    /// continuous repaint, a toplevel opaque focusable window, no grabs of
    /// its own, closing on Back.
    fn default() -> (r: Self)
        ensures
            r.title@ == "tizen-eframe"@,
            r.app_id@ == "rust.tizen.eframe"@,
            r.size == (1920u32, 1080u32),
            !r.continuous_repaint,
            r.window_type == WindowType::Toplevel,
            !r.transparent,
            !r.focus_skip,
            r.grab_keys@.len() == 0,
            r.close_on_back,
    {
        NativeOptions {
            title: String::from_str("tizen-eframe"),
            app_id: String::from_str("rust.tizen.eframe"),
            size: (1920, 1080),
            continuous_repaint: false,
            window_type: WindowType::Toplevel,
            transparent: false,
            focus_skip: false,
            grab_keys: Vec::new(),
            close_on_back: true,
        }
    }
}

/// The settings of the window a native run of `app_name` opens.
pub open spec fn native_window_view(options: NativeOptions, app_name: Seq<char>) -> WindowBuilderView {
    WindowBuilderView {
        title: Some(if options.title@.len() == 0 { app_name } else { options.title@ }),
        app_id: Some(if options.app_id@.len() == 0 { app_name } else { options.app_id@ }),
        width: Some(options.size.0),
        height: Some(options.size.1),
        window_type: options.window_type,
        transparent: options.transparent,
        focus_skip: options.focus_skip,
        grab_keys: composed_grabs(options.grab_keys@, options.close_on_back, options.focus_skip),
    }
}

/// The window a native run of `app_name` opens for `options`: the title and
/// app id (the application name where empty), the size, type,
/// transparency and focus skipping, and the composed key grabs.
pub fn native_window(options: NativeOptions, app_name: &str) -> (r: WindowBuilder)
    ensures
        r@ == native_window_view(options, app_name@),
        r@.width == Some(options.size.0),
        r@.height == Some(options.size.1),
        r@.window_type == options.window_type,
        r@.transparent == options.transparent,
        r@.focus_skip == options.focus_skip,
        r@.title == Some(if options.title@.len() == 0 { app_name@ } else { options.title@ }),
        r@.app_id == Some(if options.app_id@.len() == 0 { app_name@ } else { options.app_id@ }),
{
    let (title, app_id) = window_names(options.title.as_str(), options.app_id.as_str(), app_name);
    let grabs = compose_grab_keys(options.grab_keys, options.close_on_back, options.focus_skip);
    WindowBuilder::new()
        .title(title.as_str())
        .app_id(app_id.as_str())
        .size(options.size.0, options.size.1)
        .window_type(options.window_type)
        .transparent(options.transparent)
        .focus_skip(options.focus_skip)
        .grab_keys(grabs)
}

/// The window of a native run takes its size as (width, height) from the
/// options, and its type, transparency and focus skipping unchanged; its
/// title and app id are the options' own unless empty, then the
/// application's name; its grabs are the options' grabs, first and in
/// order.
pub proof fn lemma_native_window_follows_options(options: NativeOptions, app_name: Seq<char>)
    ensures
        ({
            let v = native_window_view(options, app_name);
            &&& v.width == Some(options.size.0)
            &&& v.height == Some(options.size.1)
            &&& v.window_type == options.window_type
            &&& v.transparent == options.transparent
            &&& v.focus_skip == options.focus_skip
            &&& options.title@.len() > 0 ==> v.title == Some(options.title@)
            &&& options.title@.len() == 0 ==> v.title == Some(app_name)
            &&& options.app_id@.len() > 0 ==> v.app_id == Some(options.app_id@)
            &&& options.app_id@.len() == 0 ==> v.app_id == Some(app_name)
            &&& v.grab_keys.subrange(0, options.grab_keys@.len() as int) == options.grab_keys@
        }),
{
    lemma_compose_grabs(options.grab_keys@, options.close_on_back, options.focus_skip);
}

/// Composing the grabs always leaves a grab of Back when the run closes on
/// Back, keeps the application's grabs first and in order, and composing a
/// second time changes nothing.
pub proof fn lemma_compose_grabs(grabs: Seq<KeyGrab>, close_on_back: bool, focus_skip: bool)
    ensures
        ({
            let c = composed_grabs(grabs, close_on_back, focus_skip);
            &&& close_on_back ==> has_grab_named(c, keys::BACK@)
            &&& c.subrange(0, grabs.len() as int) == grabs
            &&& c.len() <= grabs.len() + 1
            &&& composed_grabs(c, close_on_back, focus_skip) == c
            &&& c.len() == grabs.len() + 1 ==> close_on_back && !has_grab_named(grabs, keys::BACK@)
                && c.last().name == keys::BACK && (c.last().mode == KeyGrabMode::Exclusive <==> focus_skip)
                && (c.last().mode == KeyGrabMode::Topmost <==> !focus_skip)
            &&& (!close_on_back || has_grab_named(grabs, keys::BACK@)) ==> c == grabs
        }),
{
    let c = composed_grabs(grabs, close_on_back, focus_skip);
    if close_on_back && !has_grab_named(grabs, keys::BACK@) {
        assert(c[grabs.len() as int].name@ == keys::BACK@);
        assert(has_grab_named(c, keys::BACK@));
    }
    assert(c.subrange(0, grabs.len() as int) =~= grabs);
}

} // verus!
