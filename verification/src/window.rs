//! The native Tizen window: key grabs, window types, the builder and the
//! surface state machine that the Wayland dispatcher drives.

use vstd::prelude::*;

use vstd::arithmetic::div_mod::{lemma_fundamental_div_mod, lemma_fundamental_div_mod_converse};

use crate::text::same_text;

verus! {

/// Mouse button, as reported with pointer events.
#[derive(Debug, Clone, Copy, PartialEq, Eq, Hash, Structural)]
pub enum MouseButton {
    /// Primary / left.
    Left,
    /// Secondary / right.
    Right,
    /// Middle.
    Middle,
    /// Back.
    Back,
    /// Forward.
    Forward,
    /// Any other button: its raw `linux/input-event-codes.h` value.
    Other(u16),
}

/// The button a Linux evdev button code stands for.
pub open spec fn mouse_button_of(code: u32) -> MouseButton {
    if code == 0x110 {
        MouseButton::Left
    } else if code == 0x111 {
        MouseButton::Right
    } else if code == 0x112 {
        MouseButton::Middle
    } else if code == 0x113 {
        MouseButton::Back
    } else if code == 0x114 {
        MouseButton::Forward
    } else {
        MouseButton::Other((code % 0x10000) as u16)
    }
}

/// The evdev button codes of `linux/input-event-codes.h`: `BTN_LEFT`
/// (0x110) is Left, `BTN_RIGHT` 0x111 Right, `BTN_MIDDLE` 0x112 Middle,
/// `BTN_SIDE` 0x113 Back, `BTN_EXTRA` 0x114 Forward; any other code is
/// `Other` and keeps its low 16 bits.
pub proof fn lemma_mouse_button_table(code: u32)
    ensures
        mouse_button_of(code) == MouseButton::Left <==> code == 0x110,
        mouse_button_of(code) == MouseButton::Right <==> code == 0x111,
        mouse_button_of(code) == MouseButton::Middle <==> code == 0x112,
        mouse_button_of(code) == MouseButton::Back <==> code == 0x113,
        mouse_button_of(code) == MouseButton::Forward <==> code == 0x114,
        !(0x110 <= code <= 0x114) ==> mouse_button_of(code) == MouseButton::Other((code % 0x10000) as u16),
{
}

/// Map a Linux evdev button code (`BTN_LEFT` ...) onto a [`MouseButton`];
/// other codes keep their low 16 bits.
pub fn evdev_to_mouse_button(code: u32) -> (r: MouseButton)
    ensures
        r == mouse_button_of(code),
{
    if code == 0x110 {
        MouseButton::Left
    } else if code == 0x111 {
        MouseButton::Right
    } else if code == 0x112 {
        MouseButton::Middle
    } else if code == 0x113 {
        MouseButton::Back
    } else if code == 0x114 {
        MouseButton::Forward
    } else {
        let low: u16 = (code & 0xffff) as u16;
        assert(code & 0xffff == code % 0x10000) by (bit_vector);
        MouseButton::Other(low)
    }
}

/// Modifier-key state, one bit per modifier.
#[derive(Debug, Clone, Copy, PartialEq, Eq, Hash, Default, Structural)]
pub struct ModifiersState {
    pub bits: u32,
}

impl ModifiersState {
    /// Shift (either side).
    pub const SHIFT: u32 = 1;
    /// Control (either side).
    pub const CTRL: u32 = 2;
    /// Alt (either side).
    pub const ALT: u32 = 4;
    /// Logo / Super / Windows / Meta key.
    pub const LOGO: u32 = 8;

    /// No modifier held.
    pub fn empty() -> (r: Self)
        ensures
            r.bits == 0,
    {
        ModifiersState { bits: 0 }
    }

    /// The state with exactly the modifier bits of `bits` that are known.
    pub fn from_bits_truncate(bits: u32) -> (r: Self)
        ensures
            r.bits == bits & 15,
    {
        ModifiersState { bits: bits & 15 }
    }

    /// Whether every bit of `flag` is held.
    pub fn contains(&self, flag: u32) -> (r: bool)
        ensures
            r == (self.bits & flag == flag),
    {
        self.bits & flag == flag
    }
}

/// Grab mode passed to `tizen_keyrouter.set_keygrab`.
#[derive(Debug, Clone, Copy, PartialEq, Eq, Structural)]
pub enum KeyGrabMode {
    /// Delivered alongside the focused client.
    Shared,
    /// Delivered when the requesting client is topmost.
    Topmost,
    /// Delivered exclusively, but lower-priority requesters can preempt.
    OverridableExclusive,
    /// Delivered exclusively to the requester regardless of focus.
    Exclusive,
    /// Delivered only when the requesting surface is on top among the
    /// surfaces registered for the key.
    Registered,
}

/// The protocol value of a grab mode.
pub open spec fn grab_mode_code(mode: KeyGrabMode) -> u32 {
    match mode {
        KeyGrabMode::Shared => 1,
        KeyGrabMode::Topmost => 2,
        KeyGrabMode::OverridableExclusive => 3,
        KeyGrabMode::Exclusive => 4,
        KeyGrabMode::Registered => 5,
    }
}

/// The `tizen_keyrouter` grab-mode values, mode by mode: Shared 1,
/// Topmost 2, OverridableExclusive 3, Exclusive 4, Registered 5.
pub proof fn lemma_grab_mode_codes(mode: KeyGrabMode)
    ensures
        grab_mode_code(mode) == 1 <==> mode == KeyGrabMode::Shared,
        grab_mode_code(mode) == 2 <==> mode == KeyGrabMode::Topmost,
        grab_mode_code(mode) == 3 <==> mode == KeyGrabMode::OverridableExclusive,
        grab_mode_code(mode) == 4 <==> mode == KeyGrabMode::Exclusive,
        grab_mode_code(mode) == 5 <==> mode == KeyGrabMode::Registered,
{
}

impl KeyGrabMode {
    /// The protocol value of the mode.
    pub fn as_u32(self) -> (r: u32)
        ensures
            r == grab_mode_code(self),
    {
        match self {
            KeyGrabMode::Shared => 1,
            KeyGrabMode::Topmost => 2,
            KeyGrabMode::OverridableExclusive => 3,
            KeyGrabMode::Exclusive => 4,
            KeyGrabMode::Registered => 5,
        }
    }
}

impl Default for KeyGrabMode {
    /// [`KeyGrabMode::Topmost`].
    fn default() -> (r: Self)
        ensures
            r == KeyGrabMode::Topmost,
    {
        KeyGrabMode::Topmost
    }
}

/// A key name and how to grab it.
#[derive(Debug, Clone, Copy)]
pub struct KeyGrab {
    /// X11 keysym name; see [`crate::keys`].
    pub name: &'static str,
    /// How to grab it.
    pub mode: KeyGrabMode,
}

impl KeyGrab {
    /// Grab `name` in [`KeyGrabMode::Topmost`].
    pub fn topmost(name: &'static str) -> (r: Self)
        ensures
            r.name == name,
            r.mode == KeyGrabMode::Topmost,
    {
        KeyGrab { name, mode: KeyGrabMode::Topmost }
    }

    /// Grab `name` in [`KeyGrabMode::Exclusive`].
    pub fn exclusive(name: &'static str) -> (r: Self)
        ensures
            r.name == name,
            r.mode == KeyGrabMode::Exclusive,
    {
        KeyGrab { name, mode: KeyGrabMode::Exclusive }
    }
}

/// Tizen window type, applied via `tizen_policy.set_type`.
#[derive(Debug, Clone, Copy, PartialEq, Eq, Structural)]
pub enum WindowType {
    /// Normal application window.
    Toplevel,
    /// Partial window positioned over other toplevels.
    Floating,
    /// Fullscreen state.
    Fullscreen,
    /// Maximized state.
    Maximized,
    /// Transient relation state.
    Transient,
    /// Menu.
    Menu,
    /// Custom.
    Custom,
    /// Notification, above toplevels.
    Notification,
    /// Utility.
    Utility,
    /// Dialog.
    Dialog,
    /// Dock.
    Dock,
    /// Splash screen.
    Splash,
}

/// The `win_type` protocol value of a window type (`Floating` is set by a
/// request of its own and sends type 0).
pub open spec fn window_type_code(t: WindowType) -> u32 {
    match t {
        WindowType::Floating => 0,
        WindowType::Toplevel => 1,
        WindowType::Fullscreen => 2,
        WindowType::Maximized => 3,
        WindowType::Transient => 4,
        WindowType::Menu => 5,
        WindowType::Custom => 7,
        WindowType::Notification => 8,
        WindowType::Utility => 9,
        WindowType::Dialog => 10,
        WindowType::Dock => 11,
        WindowType::Splash => 12,
    }
}

/// The `win_type` values of `tizen_policy.set_type`, type by type:
/// Toplevel 1, Fullscreen 2, Maximized 3, Transient 4, Menu 5, Custom 7,
/// Notification 8, Utility 9, Dialog 10, Dock 11, Splash 12, and 0 for
/// Floating (which has a request of its own); no two types but Floating
/// share a value, and 6 is none.
pub proof fn lemma_window_type_codes(t: WindowType)
    ensures
        window_type_code(t) == 0 <==> t == WindowType::Floating,
        window_type_code(t) == 1 <==> t == WindowType::Toplevel,
        window_type_code(t) == 2 <==> t == WindowType::Fullscreen,
        window_type_code(t) == 3 <==> t == WindowType::Maximized,
        window_type_code(t) == 4 <==> t == WindowType::Transient,
        window_type_code(t) == 5 <==> t == WindowType::Menu,
        window_type_code(t) != 6,
        window_type_code(t) == 7 <==> t == WindowType::Custom,
        window_type_code(t) == 8 <==> t == WindowType::Notification,
        window_type_code(t) == 9 <==> t == WindowType::Utility,
        window_type_code(t) == 10 <==> t == WindowType::Dialog,
        window_type_code(t) == 11 <==> t == WindowType::Dock,
        window_type_code(t) == 12 <==> t == WindowType::Splash,
{
}

impl WindowType {
    /// The `win_type` protocol value.
    pub fn as_u32(self) -> (r: u32)
        ensures
            r == window_type_code(self),
    {
        match self {
            WindowType::Floating => 0,
            WindowType::Toplevel => 1,
            WindowType::Fullscreen => 2,
            WindowType::Maximized => 3,
            WindowType::Transient => 4,
            WindowType::Menu => 5,
            WindowType::Custom => 7,
            WindowType::Notification => 8,
            WindowType::Utility => 9,
            WindowType::Dialog => 10,
            WindowType::Dock => 11,
            WindowType::Splash => 12,
        }
    }
}

impl Default for WindowType {
    /// [`WindowType::Toplevel`].
    fn default() -> (r: Self)
        ensures
            r == WindowType::Toplevel,
    {
        WindowType::Toplevel
    }
}

/// What the surface state machine reports to the application.
#[derive(Debug, Clone, Copy, PartialEq, Eq, Structural)]
pub enum SurfaceEvent {
    /// The compositor resized the window.
    Resized { width: u32, height: u32 },
    /// Time to paint the next frame.
    RedrawRequested,
    /// The compositor asked the window to close.
    CloseRequested,
}

/// The window-level state that the Wayland dispatcher updates.
#[derive(Debug, Clone, Copy, PartialEq, Eq, Structural)]
pub struct SurfaceState {
    /// Current width in pixels.
    pub width: u32,
    /// Current height in pixels.
    pub height: u32,
    /// Serial of a configure that has not been acknowledged yet.
    pub pending_configure: Option<u32>,
    /// The first configure has been received and acknowledged.
    pub configured: bool,
    /// The window is to close.
    pub should_close: bool,
    /// BGRX value painted by the software path.
    pub pixel: u32,
    /// A frame callback is outstanding.
    pub frame_requested: bool,
}

impl SurfaceState {
    /// A window of the given size that has seen no configure yet.
    pub fn new(width: u32, height: u32, pixel: u32) -> (r: Self)
        ensures
            r == (SurfaceState {
                width,
                height,
                pending_configure: None,
                configured: false,
                should_close: false,
                pixel,
                frame_requested: false,
            }),
    {
        SurfaceState {
            width,
            height,
            pending_configure: None,
            configured: false,
            should_close: false,
            pixel,
            frame_requested: false,
        }
    }

    /// Current size in pixels.
    pub fn size(&self) -> (r: (u32, u32))
        ensures
            r == (self.width, self.height),
    {
        (self.width, self.height)
    }

    /// Whether the window is to close.
    pub fn should_close(&self) -> (r: bool)
        ensures
            r == self.should_close,
    {
        self.should_close
    }

    /// Ask the event loop to stop on its next iteration.
    pub fn set_should_close(&mut self)
        ensures
            *final(self) == (SurfaceState { should_close: true, ..*old(self) }),
    {
        self.should_close = true;
    }

    /// Record that a frame callback has been registered.
    pub fn request_redraw(&mut self)
        ensures
            *final(self) == (SurfaceState { frame_requested: true, ..*old(self) }),
    {
        self.frame_requested = true;
    }

    /// Set the colour of the software path; returns whether to paint now
    /// (only once the first configure has arrived).
    pub fn fill_solid(&mut self, bgrx: u32) -> (paint_now: bool)
        ensures
            *final(self) == (SurfaceState { pixel: bgrx, ..*old(self) }),
            paint_now == old(self).configured,
    {
        self.pixel = bgrx;
        self.configured
    }

    /// `zxdg_surface_v6.configure`: the serial is acknowledged at once, the
    /// window becomes configured, and the first configure asks for a paint.
    pub fn on_surface_configure(&mut self, serial: u32) -> (r: Vec<SurfaceEvent>)
        ensures
            (*final(self), r@) == surface_transition(*old(self), SurfaceInput::SurfaceConfigure(serial)),
    {
        self.pending_configure = None;
        let was_configured = self.configured;
        self.configured = true;
        let mut events = Vec::new();
        if !was_configured {
            events.push(SurfaceEvent::RedrawRequested);
        }
        events
    }

    /// `zxdg_toplevel_v6.configure`: a positive size that differs from the
    /// current one is taken over and reported, followed by a paint request.
    pub fn on_toplevel_configure(&mut self, width: i32, height: i32) -> (r: Vec<SurfaceEvent>)
        ensures
            (*final(self), r@) == surface_transition(*old(self), SurfaceInput::ToplevelConfigure(width, height)),
    {
        let mut events = Vec::new();
        if width > 0 && height > 0 {
            let w: u32 = width as u32;
            let h: u32 = height as u32;
            if self.width != w || self.height != h {
                self.width = w;
                self.height = h;
                events.push(SurfaceEvent::Resized { width: w, height: h });
                events.push(SurfaceEvent::RedrawRequested);
            }
        }
        events
    }

    /// `zxdg_toplevel_v6.close`: the window is to close.
    pub fn on_toplevel_close(&mut self) -> (r: Vec<SurfaceEvent>)
        ensures
            (*final(self), r@) == surface_transition(*old(self), SurfaceInput::ToplevelClose),
    {
        self.should_close = true;
        let mut events = Vec::new();
        events.push(SurfaceEvent::CloseRequested);
        events
    }

    /// `wl_callback.done` for a frame callback: time to paint.
    pub fn on_frame_done(&mut self) -> (r: Vec<SurfaceEvent>)
        ensures
            (*final(self), r@) == surface_transition(*old(self), SurfaceInput::FrameDone),
    {
        self.frame_requested = false;
        let mut events = Vec::new();
        events.push(SurfaceEvent::RedrawRequested);
        events
    }
}

/// A compositor event that concerns the window surface.
#[derive(Debug, Clone, Copy, PartialEq, Eq, Structural)]
pub enum SurfaceInput {
    /// `zxdg_surface_v6.configure` with its serial.
    SurfaceConfigure(u32),
    /// `zxdg_toplevel_v6.configure` with the suggested width and height.
    ToplevelConfigure(i32, i32),
    /// `zxdg_toplevel_v6.close`.
    ToplevelClose,
    /// `wl_callback.done` of a frame callback.
    FrameDone,
}

/// The state after `input` and the events reported for it.
pub open spec fn surface_transition(s: SurfaceState, input: SurfaceInput) -> (SurfaceState, Seq<SurfaceEvent>) {
    match input {
        SurfaceInput::SurfaceConfigure(_) => (
            SurfaceState { pending_configure: None, configured: true, ..s },
            if s.configured { Seq::empty() } else { seq![SurfaceEvent::RedrawRequested] },
        ),
        SurfaceInput::ToplevelConfigure(width, height) => {
            if width > 0 && height > 0 && (s.width != width as u32 || s.height != height as u32) {
                (
                    SurfaceState { width: width as u32, height: height as u32, ..s },
                    seq![
                        SurfaceEvent::Resized { width: width as u32, height: height as u32 },
                        SurfaceEvent::RedrawRequested,
                    ],
                )
            } else {
                (s, Seq::empty())
            }
        },
        SurfaceInput::ToplevelClose => (
            SurfaceState { should_close: true, ..s },
            seq![SurfaceEvent::CloseRequested],
        ),
        SurfaceInput::FrameDone => (
            SurfaceState { frame_requested: false, ..s },
            seq![SurfaceEvent::RedrawRequested],
        ),
    }
}

/// A window that is to close stays so, whatever the compositor sends, and
/// a configured window stays configured.
pub proof fn lemma_close_and_configure_are_permanent(s: SurfaceState, input: SurfaceInput)
    ensures
        s.should_close ==> surface_transition(s, input).0.should_close,
        s.configured ==> surface_transition(s, input).0.configured,
{
}

/// Only the first configure asks for a paint: two configures in a row
/// report exactly one `RedrawRequested` when the window was not yet
/// configured, and none when it was.
pub proof fn lemma_first_configure_paints_once(s: SurfaceState, serial1: u32, serial2: u32)
    ensures
        ({
            let (s1, e1) = surface_transition(s, SurfaceInput::SurfaceConfigure(serial1));
            let (s2, e2) = surface_transition(s1, SurfaceInput::SurfaceConfigure(serial2));
            &&& s2.configured
            &&& e1 + e2 == (if s.configured {
                Seq::<SurfaceEvent>::empty()
            } else {
                seq![SurfaceEvent::RedrawRequested]
            })
        }),
{
    let (s1, e1) = surface_transition(s, SurfaceInput::SurfaceConfigure(serial1));
    let (s2, e2) = surface_transition(s1, SurfaceInput::SurfaceConfigure(serial2));
    assert(e1 + e2 =~= (if s.configured {
        Seq::<SurfaceEvent>::empty()
    } else {
        seq![SurfaceEvent::RedrawRequested]
    }));
}

/// After a toplevel configure with a positive size the window has exactly
/// that size, and a `Resized` event is reported exactly when the size
/// changed; every `Resized` is followed by a `RedrawRequested`.
pub proof fn lemma_toplevel_configure_sets_size(s: SurfaceState, width: i32, height: i32)
    requires
        width > 0,
        height > 0,
    ensures
        ({
            let (next, events) = surface_transition(s, SurfaceInput::ToplevelConfigure(width, height));
            &&& next.width == width as u32
            &&& next.height == height as u32
            &&& (events.len() > 0 <==> (s.width, s.height) != (width as u32, height as u32))
            &&& events.len() > 0 ==> events == seq![
                SurfaceEvent::Resized { width: width as u32, height: height as u32 },
                SurfaceEvent::RedrawRequested,
            ]
        }),
{
}

/// What an event loop does once it has dispatched the compositor's events,
/// or handed the queued window events to the application.
#[derive(Debug, Clone, Copy, PartialEq, Eq, Structural)]
pub enum LoopStep {
    /// The window is to close: leave the loop.
    Finish,
    /// Go on: hand out the next events, or wait for the compositor.
    Continue,
}

/// The stop test of the event loops: finish exactly when the window is to
/// close (by the compositor, a signal or the application).
pub fn loop_step(state: &SurfaceState) -> (r: LoopStep)
    ensures
        r == (if state.should_close { LoopStep::Finish } else { LoopStep::Continue }),
{
    if state.should_close {
        LoopStep::Finish
    } else {
        LoopStep::Continue
    }
}

/// Window width used when the builder names none.
pub const DEFAULT_WIDTH: u32 = 640;

/// Window height used when the builder names none.
pub const DEFAULT_HEIGHT: u32 = 480;

/// BGRX colour the software path paints until told otherwise.
pub const DEFAULT_PIXEL: u32 = 0xFF1E40AF;

/// Builder for a native window.
#[derive(Debug, Clone)]
pub struct WindowBuilder {
    title: Option<String>,
    app_id: Option<String>,
    width: Option<u32>,
    height: Option<u32>,
    window_type: WindowType,
    transparent: bool,
    focus_skip: bool,
    grab_keys: Vec<KeyGrab>,
}

/// The settings a [`WindowBuilder`] holds.
pub struct WindowBuilderView {
    pub title: Option<Seq<char>>,
    pub app_id: Option<Seq<char>>,
    pub width: Option<u32>,
    pub height: Option<u32>,
    pub window_type: WindowType,
    pub transparent: bool,
    pub focus_skip: bool,
    pub grab_keys: Seq<KeyGrab>,
}

/// The view of an optional string.
pub open spec fn opt_text(s: Option<String>) -> Option<Seq<char>> {
    match s {
        Some(t) => Some(t@),
        None => None,
    }
}

impl View for WindowBuilder {
    type V = WindowBuilderView;

    closed spec fn view(&self) -> WindowBuilderView {
        WindowBuilderView {
            title: opt_text(self.title),
            app_id: opt_text(self.app_id),
            width: self.width,
            height: self.height,
            window_type: self.window_type,
            transparent: self.transparent,
            focus_skip: self.focus_skip,
            grab_keys: self.grab_keys@,
        }
    }
}

/// A `tizen_policy` request made on the new surface.
#[derive(Debug, Clone, Copy, PartialEq, Eq, Structural)]
pub enum PolicyRequest {
    /// `set_floating_mode`.
    SetFloatingMode,
    /// `set_type` with this `win_type` value.
    SetType(u32),
    /// `show`.
    Show,
    /// `raise`.
    Raise,
    /// `set_focus_skip`.
    SetFocusSkip,
}

/// A `tizen_keyrouter.set_keygrab` request: keycode and mode value.
#[derive(Debug, Clone, Copy, PartialEq, Eq, Structural)]
pub struct KeyGrabRequest {
    pub keycode: u32,
    pub mode: u32,
}

/// The `tizen_policy` requests, in order, that make a window of these
/// settings visible: floating mode for floating windows, then its type,
/// `show`, `raise`, and focus skipping when asked for.
pub open spec fn policy_plan(b: WindowBuilderView) -> Seq<PolicyRequest> {
    (if b.window_type == WindowType::Floating {
        seq![PolicyRequest::SetFloatingMode]
    } else {
        Seq::empty()
    }) + seq![
        PolicyRequest::SetType(window_type_code(b.window_type)),
        PolicyRequest::Show,
        PolicyRequest::Raise,
    ] + (if b.focus_skip {
        seq![PolicyRequest::SetFocusSkip]
    } else {
        Seq::empty()
    })
}

/// The key-grab requests for `grabs`, where `codes[i]` are the keycodes
/// that `grabs[i]` resolves to: every keycode of every grab in order, with
/// the grab's mode. A name that resolves to nothing adds nothing.
pub open spec fn grab_plan(grabs: Seq<KeyGrab>, codes: Seq<Seq<u32>>) -> Seq<KeyGrabRequest>
    decreases grabs.len(),
{
    if grabs.len() == 0 {
        Seq::empty()
    } else {
        grab_plan(grabs.drop_last(), codes.drop_last()) + codes.last().map_values(
            |kc: u32| KeyGrabRequest { keycode: kc, mode: grab_mode_code(grabs.last().mode) },
        )
    }
}

/// The policy requests always set the window's type by its protocol value
/// and then show and raise it; floating mode comes first exactly for
/// floating windows, and focus skipping last exactly when asked for.
pub proof fn lemma_policy_plan(b: WindowBuilderView)
    ensures
        ({
            let p = policy_plan(b);
            let k: int = if b.window_type == WindowType::Floating { 1 } else { 0 };
            &&& p.len() == k + 3 + (if b.focus_skip { 1int } else { 0int })
            &&& (p[0] == PolicyRequest::SetFloatingMode <==> b.window_type == WindowType::Floating)
            &&& p[k] == PolicyRequest::SetType(window_type_code(b.window_type))
            &&& p[k + 1] == PolicyRequest::Show
            &&& p[k + 2] == PolicyRequest::Raise
            &&& (p.last() == PolicyRequest::SetFocusSkip <==> b.focus_skip)
        }),
{
}

impl WindowBuilder {
    /// A builder with no title, app id or size, a toplevel window type,
    /// opaque, focusable, and no key grabs.
    pub fn new() -> (r: Self)
        ensures
            r@.title is None,
            r@.app_id is None,
            r@.width is None,
            r@.height is None,
            r@.window_type == WindowType::Toplevel,
            !r@.transparent,
            !r@.focus_skip,
            r@.grab_keys.len() == 0,
    {
        WindowBuilder {
            title: None,
            app_id: None,
            width: None,
            height: None,
            window_type: WindowType::Toplevel,
            transparent: false,
            focus_skip: false,
            grab_keys: Vec::new(),
        }
    }

    /// Window title.
    pub fn title(self, title: &str) -> (r: Self)
        ensures
            r@ == (WindowBuilderView { title: Some(title@), ..self@ }),
    {
        WindowBuilder { title: Some(String::from_str(title)), ..self }
    }

    /// Reverse-DNS application id.
    pub fn app_id(self, app_id: &str) -> (r: Self)
        ensures
            r@ == (WindowBuilderView { app_id: Some(app_id@), ..self@ }),
    {
        WindowBuilder { app_id: Some(String::from_str(app_id)), ..self }
    }

    /// Requested initial size.
    pub fn size(self, width: u32, height: u32) -> (r: Self)
        ensures
            r@ == (WindowBuilderView { width: Some(width), height: Some(height), ..self@ }),
    {
        WindowBuilder { width: Some(width), height: Some(height), ..self }
    }

    /// Tizen-policy window type.
    pub fn window_type(self, window_type: WindowType) -> (r: Self)
        ensures
            r@ == (WindowBuilderView { window_type, ..self@ }),
    {
        WindowBuilder { window_type, ..self }
    }

    /// Mark the surface as alpha-blended.
    pub fn transparent(self, transparent: bool) -> (r: Self)
        ensures
            r@ == (WindowBuilderView { transparent, ..self@ }),
    {
        WindowBuilder { transparent, ..self }
    }

    /// Ask the compositor not to give the surface keyboard focus.
    pub fn focus_skip(self, focus_skip: bool) -> (r: Self)
        ensures
            r@ == (WindowBuilderView { focus_skip, ..self@ }),
    {
        WindowBuilder { focus_skip, ..self }
    }

    /// Keys to grab with `tizen_keyrouter` once the surface exists; replaces
    /// any earlier list.
    pub fn grab_keys(self, list: Vec<KeyGrab>) -> (r: Self)
        ensures
            r@ == (WindowBuilderView { grab_keys: list@, ..self@ }),
    {
        WindowBuilder { grab_keys: list, ..self }
    }

    /// The title to set on the toplevel, if any.
    pub fn title_text(&self) -> (r: Option<&String>)
        ensures
            match r {
                Some(t) => self@.title == Some(t@),
                None => self@.title is None,
            },
    {
        match &self.title {
            Some(t) => Some(t),
            None => None,
        }
    }

    /// The application id to set on the toplevel, if any.
    pub fn app_id_text(&self) -> (r: Option<&String>)
        ensures
            match r {
                Some(t) => self@.app_id == Some(t@),
                None => self@.app_id is None,
            },
    {
        match &self.app_id {
            Some(t) => Some(t),
            None => None,
        }
    }

    /// Whether the surface is alpha-blended.
    pub fn is_transparent(&self) -> (r: bool)
        ensures
            r == self@.transparent,
    {
        self.transparent
    }

    /// The keys to grab, in order.
    pub fn key_grabs(&self) -> (r: &Vec<KeyGrab>)
        ensures
            r@ == self@.grab_keys,
    {
        &self.grab_keys
    }

    /// The `tizen_policy` requests to send for the new surface, in order.
    pub fn policy_requests(&self) -> (r: Vec<PolicyRequest>)
        ensures
            r@ == policy_plan(self@),
    {
        let mut out = Vec::new();
        if self.window_type == WindowType::Floating {
            out.push(PolicyRequest::SetFloatingMode);
        }
        out.push(PolicyRequest::SetType(self.window_type.as_u32()));
        out.push(PolicyRequest::Show);
        out.push(PolicyRequest::Raise);
        if self.focus_skip {
            out.push(PolicyRequest::SetFocusSkip);
        }
        assert(out@ =~= policy_plan(self@));
        out
    }

    /// The key-grab requests to send, given the keycodes each grab's name
    /// resolves to in the current keymap (`keycodes[i]` for the i-th grab).
    pub fn keygrab_requests(&self, keycodes: &Vec<Vec<u32>>) -> (r: Vec<KeyGrabRequest>)
        requires
            keycodes@.len() == self@.grab_keys.len(),
        ensures
            r@ == grab_plan(self@.grab_keys, keycodes.deep_view()),
    {
        let mut out: Vec<KeyGrabRequest> = Vec::new();
        let n: usize = self.grab_keys.len();
        for i in 0..n
            invariant
                n == self.grab_keys@.len(),
                keycodes@.len() == n,
                out@ == grab_plan(self.grab_keys@.subrange(0, i as int), keycodes.deep_view().subrange(0, i as int)),
        {
            let mode: u32 = self.grab_keys[i].mode.as_u32();
            let codes = &keycodes[i];
            let ghost before = out@;
            for j in 0..codes.len()
                invariant
                    out@ == before + codes@.subrange(0, j as int).map_values(
                        |kc: u32| KeyGrabRequest { keycode: kc, mode: mode },
                    ),
            {
                out.push(KeyGrabRequest { keycode: codes[j], mode });
                assert(codes@.subrange(0, j + 1) == codes@.subrange(0, j as int).push(codes@[j as int]));
                assert(out@ =~= before + codes@.subrange(0, j + 1).map_values(
                    |kc: u32| KeyGrabRequest { keycode: kc, mode: mode },
                ));
            }
            assert(codes@.subrange(0, codes@.len() as int) == codes@);
            let ghost g = self.grab_keys@.subrange(0, i + 1);
            let ghost c = keycodes.deep_view().subrange(0, i + 1);
            assert(g.drop_last() == self.grab_keys@.subrange(0, i as int));
            assert(c.drop_last() == keycodes.deep_view().subrange(0, i as int));
            assert(c.last() == codes@);
            assert(g.last() == self.grab_keys@[i as int]);
        }
        assert(self.grab_keys@.subrange(0, n as int) == self.grab_keys@);
        assert(keycodes.deep_view().subrange(0, n as int) == keycodes.deep_view());
        out
    }

    /// The state of the window right after it is built: the requested size
    /// (640 x 480 when none was given), not configured, not closing, the
    /// default colour, no frame outstanding.
    pub fn initial_state(&self) -> (r: SurfaceState)
        ensures
            r == (SurfaceState {
                width: match self@.width { Some(w) => w, None => DEFAULT_WIDTH },
                height: match self@.height { Some(h) => h, None => DEFAULT_HEIGHT },
                pending_configure: None,
                configured: false,
                should_close: false,
                pixel: DEFAULT_PIXEL,
                frame_requested: false,
            }),
    {
        let width: u32 = match self.width { Some(w) => w, None => DEFAULT_WIDTH };
        let height: u32 = match self.height { Some(h) => h, None => DEFAULT_HEIGHT };
        SurfaceState::new(width, height, DEFAULT_PIXEL)
    }
}

/// Failure of the window stack.
#[derive(Debug, Clone, PartialEq, Eq)]
pub enum Error {
    /// The Wayland connection could not be made.
    NotConnected(String),
    /// The compositor does not advertise this required global.
    GlobalMissing(&'static str),
    /// TBM client init or buffer allocation failed.
    Tbm(String),
    /// The Wayland event queue failed.
    Transport(String),
    /// Called on a build with no reachable Tizen compositor.
    Unsupported,
}

/// The text an [`Error`] displays as.
pub open spec fn error_text(e: Error) -> Seq<char> {
    match e {
        Error::NotConnected(m) => "wayland connect failed: "@ + m@,
        Error::GlobalMissing(name) => "compositor does not advertise `"@ + name@
            + "` \u{2014} needed for native Tizen window"@,
        Error::Tbm(m) => "tbm: "@ + m@,
        Error::Transport(m) => "wayland transport: "@ + m@,
        Error::Unsupported => "tizen-window not supported on this host build"@,
    }
}

impl Error {
    /// The human-readable description of the error.
    pub fn message(&self) -> (r: String)
        ensures
            r@ == error_text(*self),
    {
        match self {
            Error::NotConnected(m) => String::from_str("wayland connect failed: ").concat(m.as_str()),
            Error::GlobalMissing(name) => String::from_str("compositor does not advertise `").concat(
                name,
            ).concat("` \u{2014} needed for native Tizen window"),
            Error::Tbm(m) => String::from_str("tbm: ").concat(m.as_str()),
            Error::Transport(m) => String::from_str("wayland transport: ").concat(m.as_str()),
            Error::Unsupported => String::from_str("tizen-window not supported on this host build"),
        }
    }
}

/// The outcome of the registry walk: the first of `wl_compositor`,
/// `zxdg_shell_v6` and `wtz_shell` that is missing is reported.
pub fn check_globals(has_compositor: bool, has_xdg_shell: bool, has_wtz_shell: bool) -> (r: Result<(), Error>)
    ensures
        r == (if !has_compositor {
            Err(Error::GlobalMissing("wl_compositor"))
        } else if !has_xdg_shell {
            Err(Error::GlobalMissing("zxdg_shell_v6"))
        } else if !has_wtz_shell {
            Err(Error::GlobalMissing("wtz_shell"))
        } else {
            Ok(())
        }),
{
    if !has_compositor {
        return Err(Error::GlobalMissing("wl_compositor"));
    }
    if !has_xdg_shell {
        return Err(Error::GlobalMissing("zxdg_shell_v6"));
    }
    if !has_wtz_shell {
        return Err(Error::GlobalMissing("wtz_shell"));
    }
    Ok(())
}

/// The error of a failed Wayland connection: the failure itself on a
/// build for Tizen; on a host build, there is no Tizen compositor to reach.
pub fn connect_error(on_target: bool, message: String) -> (r: Error)
    ensures
        r == (if on_target { Error::NotConnected(message) } else { Error::Unsupported }),
{
    if on_target {
        Error::NotConnected(message)
    } else {
        Error::Unsupported
    }
}

/// The outcome of the registry walk on a build for Tizen (`on_target`) or
/// for a host: on Tizen as [`check_globals`] reports it; on a host, a
/// compositor that lacks any of the three globals is no Tizen compositor,
/// and the window is unsupported.
pub fn check_compositor(on_target: bool, has_compositor: bool, has_xdg_shell: bool, has_wtz_shell: bool) -> (r: Result<(), Error>)
    ensures
        r == (if !on_target && !(has_compositor && has_xdg_shell && has_wtz_shell) {
            Err(Error::Unsupported)
        } else if !has_compositor {
            Err(Error::GlobalMissing("wl_compositor"))
        } else if !has_xdg_shell {
            Err(Error::GlobalMissing("zxdg_shell_v6"))
        } else if !has_wtz_shell {
            Err(Error::GlobalMissing("wtz_shell"))
        } else {
            Ok(())
        }),
{
    if !on_target && !(has_compositor && has_xdg_shell && has_wtz_shell) {
        return Err(Error::Unsupported);
    }
    check_globals(has_compositor, has_xdg_shell, has_wtz_shell)
}

/// A global of the registry that a window needs.
#[derive(Debug, Clone, Copy, PartialEq, Eq, Structural)]
pub enum WindowGlobal {
    /// `wl_compositor`.
    Compositor,
    /// `zxdg_shell_v6`.
    XdgShell,
    /// `wtz_shell`.
    WtzShell,
    /// `tizen_policy`.
    Policy,
    /// `wl_seat`.
    Seat,
}

/// The smaller of `version` and `cap`.
pub open spec fn capped(version: u32, cap: u32) -> u32 {
    if version < cap { version } else { cap }
}

/// Which global an advertised interface is and the version to bind it at:
/// `wl_compositor` up to 4, `zxdg_shell_v6` and `wtz_shell` at 1,
/// `tizen_policy` up to 8 (the version with `show`), `wl_seat` up to 7;
/// other interfaces are not bound.
pub open spec fn window_global_of(interface: Seq<char>, version: u32) -> Option<(WindowGlobal, u32)> {
    if interface == "wl_compositor"@ {
        Some((WindowGlobal::Compositor, capped(version, 4)))
    } else if interface == "zxdg_shell_v6"@ {
        Some((WindowGlobal::XdgShell, capped(version, 1)))
    } else if interface == "wtz_shell"@ {
        Some((WindowGlobal::WtzShell, capped(version, 1)))
    } else if interface == "tizen_policy"@ {
        Some((WindowGlobal::Policy, capped(version, 8)))
    } else if interface == "wl_seat"@ {
        Some((WindowGlobal::Seat, capped(version, 7)))
    } else {
        None
    }
}

/// Decide whether and at which version to bind an advertised global.
pub fn window_global(interface: &str, version: u32) -> (r: Option<(WindowGlobal, u32)>)
    ensures
        r == window_global_of(interface@, version),
{
    if same_text(interface, "wl_compositor") {
        Some((WindowGlobal::Compositor, if version < 4 { version } else { 4 }))
    } else if same_text(interface, "zxdg_shell_v6") {
        Some((WindowGlobal::XdgShell, if version < 1 { version } else { 1 }))
    } else if same_text(interface, "wtz_shell") {
        Some((WindowGlobal::WtzShell, if version < 1 { version } else { 1 }))
    } else if same_text(interface, "tizen_policy") {
        Some((WindowGlobal::Policy, if version < 8 { version } else { 8 }))
    } else if same_text(interface, "wl_seat") {
        Some((WindowGlobal::Seat, if version < 7 { version } else { 7 }))
    } else {
        None
    }
}

/// Which input devices to take from the seat.
#[derive(Debug, Clone, Copy, PartialEq, Eq, Structural)]
pub struct SeatBindings {
    /// Get the seat's pointer.
    pub pointer: bool,
    /// Get the seat's keyboard.
    pub keyboard: bool,
}

/// `wl_seat.capabilities`: take the pointer and the keyboard the seat
/// offers (bits 1 and 2), unless they are already held.
pub fn seat_bindings(capabilities: u32, has_pointer: bool, has_keyboard: bool) -> (r: SeatBindings)
    ensures
        r.pointer == (capabilities & 1 == 1 && !has_pointer),
        r.keyboard == (capabilities & 2 == 2 && !has_keyboard),
{
    SeatBindings {
        pointer: capabilities & 1 == 1 && !has_pointer,
        keyboard: capabilities & 2 == 2 && !has_keyboard,
    }
}

/// Byte `k` (0 = least significant) of a 32-bit pixel, the order in which
/// an `XRGB8888` pixel lies in memory.
pub open spec fn pixel_byte(pixel: u32, k: int) -> u8 {
    if k == 0 {
        (pixel & 0xff) as u8
    } else if k == 1 {
        ((pixel >> 8u32) & 0xff) as u8
    } else if k == 2 {
        ((pixel >> 16u32) & 0xff) as u8
    } else {
        ((pixel >> 24u32) & 0xff) as u8
    }
}

/// Byte `i` of a buffer with rows `stride` bytes apart belongs to one of
/// the `width` x `height` pixels.
pub open spec fn in_image(i: int, width: u32, height: u32, stride: u32) -> bool {
    stride > 0 && 0 <= i && i / (stride as int) < height && i % (stride as int) < 4 * width
}

/// `buf` after every pixel of the image has been set to `pixel`; bytes
/// between the image rows (row padding) keep their value.
pub open spec fn filled(buf: Seq<u8>, width: u32, height: u32, stride: u32, pixel: u32) -> Seq<u8> {
    Seq::new(
        buf.len(),
        |i: int|
            if in_image(i, width, height, stride) {
                pixel_byte(pixel, (i % (stride as int)) % 4)
            } else {
                buf[i]
            },
    )
}

/// Byte `i` lies in a row before `row`, or in row `row` before column `col`.
spec fn painted_before(i: int, width: u32, stride: u32, row: int, col: int) -> bool {
    stride > 0 && 0 <= i && (i / (stride as int) < row && i % (stride as int) < 4 * width || i / (
    stride as int) == row && i % (stride as int) < 4 * col)
}

/// Paint a solid colour: every pixel of the `width` x `height` image whose
/// rows are `stride` bytes apart in `buf` becomes `pixel`, stored
/// little-endian.
pub fn fill_pixels(buf: &mut [u8], width: u32, height: u32, stride: u32, pixel: u32)
    requires
        4 * width <= stride,
        stride as int * height as int <= old(buf)@.len(),
    ensures
        final(buf)@ == filled(old(buf)@, width, height, stride, pixel),
{
    let ghost start = buf@;
    let n: usize = buf.len();
    let ghost len = buf@.len();
    let b0: u8 = (pixel & 0xff) as u8;
    let b1: u8 = ((pixel >> 8u32) & 0xff) as u8;
    let b2: u8 = ((pixel >> 16u32) & 0xff) as u8;
    let b3: u8 = ((pixel >> 24u32) & 0xff) as u8;
    let mut row: u32 = 0;
    while row < height
        invariant
            4 * width <= stride,
            stride as int * height as int <= len,
            buf@.len() == len,
            len == n,
            row <= height,
            b0 == pixel_byte(pixel, 0),
            b1 == pixel_byte(pixel, 1),
            b2 == pixel_byte(pixel, 2),
            b3 == pixel_byte(pixel, 3),
            forall|i: int|
                0 <= i < len ==> #[trigger] buf@[i] == (if painted_before(i, width, stride, row as int, 0) {
                    pixel_byte(pixel, (i % (stride as int)) % 4)
                } else {
                    start[i]
                }),
        decreases height - row,
    {
        assert(row as int * stride as int + stride as int <= stride as int * height as int) by (nonlinear_arith)
            requires
                row < height,
        ;
        let base: usize = row as usize * stride as usize;
        let mut col: u32 = 0;
        while col < width
            invariant
                4 * width <= stride,
                stride as int * height as int <= len,
                buf@.len() == len,
                len == n,
                row < height,
                col <= width,
                base == row as int * stride as int,
                base + stride <= len,
                b0 == pixel_byte(pixel, 0),
                b1 == pixel_byte(pixel, 1),
                b2 == pixel_byte(pixel, 2),
                b3 == pixel_byte(pixel, 3),
                forall|i: int|
                    0 <= i < len ==> #[trigger] buf@[i] == (if painted_before(i, width, stride, row as int, col as int) {
                        pixel_byte(pixel, (i % (stride as int)) % 4)
                    } else {
                        start[i]
                    }),
            decreases width - col,
        {
            let off: usize = base + 4 * col as usize;
            let ghost before = buf@;
            buf[off] = b0;
            buf[off + 1] = b1;
            buf[off + 2] = b2;
            buf[off + 3] = b3;
            proof {
                assert forall|i: int| 0 <= i < len implies #[trigger] buf@[i] == (if painted_before(
                    i,
                    width,
                    stride,
                    row as int,
                    col + 1,
                ) {
                    pixel_byte(pixel, (i % (stride as int)) % 4)
                } else {
                    start[i]
                }) by {
                    let q = i / (stride as int);
                    let m = i % (stride as int);
                    lemma_fundamental_div_mod(i, stride as int);
                    assert(stride as int * q == q * stride as int) by (nonlinear_arith);
                    if off <= i < off + 4 {
                        let k = i - off;
                        lemma_fundamental_div_mod_converse(i, stride as int, row as int, 4 * col + k);
                        assert(q == row && m == 4 * col + k);
                        assert((4 * col + k) % 4 == k);
                        assert(painted_before(i, width, stride, row as int, col + 1));
                    } else {
                        assert(buf@[i] == before[i]);
                        if q == row && 4 * col <= m < 4 * col + 4 {
                            assert(i == row * stride + m);
                            assert(false);
                        }
                        assert(painted_before(i, width, stride, row as int, col + 1) == painted_before(
                            i,
                            width,
                            stride,
                            row as int,
                            col as int,
                        ));
                    }
                }
            }
            col = col + 1;
        }
        proof {
            assert forall|i: int| 0 <= i < len implies #[trigger] buf@[i] == (if painted_before(
                i,
                width,
                stride,
                row + 1,
                0,
            ) {
                pixel_byte(pixel, (i % (stride as int)) % 4)
            } else {
                start[i]
            }) by {
                assert(painted_before(i, width, stride, row + 1, 0) == painted_before(
                    i,
                    width,
                    stride,
                    row as int,
                    width as int,
                ));
            }
        }
        row = row + 1;
    }
    assert(buf@ =~= filled(start, width, height, stride, pixel)) by {
        assert forall|i: int| 0 <= i < len implies buf@[i] == filled(start, width, height, stride, pixel)[i] by {
            assert(painted_before(i, width, stride, height as int, 0) == in_image(i, width, height, stride));
        }
    }
}

} // verus!