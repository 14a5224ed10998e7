//! One-shot screen capture through the `tizen_screenshooter` protocol: the
//! checks made on the compositor's globals and on capture requests, the
//! layout of a mapped buffer, and the captured frame.

use vstd::prelude::*;

use crate::tbm::TBM_FORMAT_XRGB8888;
use crate::text::{append_decimal, decimal_text, same_text};

verus! {

/// Minimum `tizen_screenshooter` version: `shoot` and `done` came in v3.
pub const REQUIRED_VERSION: u32 = 3;

/// Minimum version for `area_shoot`.
pub const AREA_SHOOT_VERSION: u32 = 4;

/// Pixel format asked of the compositor: `XRGB8888`, little-endian.
pub const SHOT_FORMAT: u32 = TBM_FORMAT_XRGB8888;

/// Size used by a full-screen shot when the output reported none.
pub const FALLBACK_WIDTH: u32 = 1920;

/// Size used by a full-screen shot when the output reported none.
pub const FALLBACK_HEIGHT: u32 = 1080;

/// Failure of a screen capture.
#[derive(Debug, Clone, PartialEq, Eq)]
pub enum Error {
    /// The Wayland connection could not be made.
    NotConnected(String),
    /// The compositor does not advertise `tizen_screenshooter`.
    ProtocolUnavailable,
    /// The compositor's `tizen_screenshooter` is too old.
    ProtocolTooOld {
        /// Version the compositor offered.
        advertised: u32,
        /// Version needed.
        required: u32,
    },
    /// The compositor advertises no `wl_output`.
    NoOutput,
    /// `libwayland-tbm-client.so.0` could not be used.
    TbmUnavailable(String),
    /// A buffer could not be allocated.
    BufferAllocation(String),
    /// A buffer could not be mapped.
    BufferMap(String),
    /// The Wayland event queue failed.
    Transport(String),
    /// Called on a non-Tizen build.
    Unsupported,
}

/// The text an [`Error`] displays as.
pub open spec fn error_text(e: Error) -> Seq<char> {
    match e {
        Error::NotConnected(m) => "wayland connect failed: "@ + m@,
        Error::ProtocolUnavailable => "compositor does not advertise tizen_screenshooter \u{2014} this only works on a Tizen compositor"@,
        Error::ProtocolTooOld { advertised, required } => "tizen_screenshooter version "@
            + decimal_text(advertised as int) + " on the compositor; this crate needs at least "@
            + decimal_text(required as int),
        Error::NoOutput => "no wl_output advertised \u{2014} nothing to capture"@,
        Error::TbmUnavailable(m) => "tbm client init failed: "@ + m@,
        Error::BufferAllocation(m) => "tbm buffer allocation failed: "@ + m@,
        Error::BufferMap(m) => "tbm buffer map failed: "@ + m@,
        Error::Transport(m) => "wayland transport error: "@ + m@,
        Error::Unsupported => "tizen-screenshot not supported on this host build (Tizen-only)"@,
    }
}

impl Error {
    /// The human-readable description of the error.
    pub fn message(&self) -> (r: String)
        ensures
            r@ == error_text(*self),
    {
        match self {
            Error::NotConnected(m) => String::from_str("wayland connect failed: ").concat(m.as_str()),
            Error::ProtocolUnavailable => String::from_str(
                "compositor does not advertise tizen_screenshooter \u{2014} this only works on a Tizen compositor",
            ),
            Error::ProtocolTooOld { advertised, required } => {
                let mut s = String::from_str("tizen_screenshooter version ");
                append_decimal(&mut s, *advertised as i64);
                s.append(" on the compositor; this crate needs at least ");
                append_decimal(&mut s, *required as i64);
                s
            },
            Error::NoOutput => String::from_str("no wl_output advertised \u{2014} nothing to capture"),
            Error::TbmUnavailable(m) => String::from_str("tbm client init failed: ").concat(m.as_str()),
            Error::BufferAllocation(m) => String::from_str("tbm buffer allocation failed: ").concat(
                m.as_str(),
            ),
            Error::BufferMap(m) => String::from_str("tbm buffer map failed: ").concat(m.as_str()),
            Error::Transport(m) => String::from_str("wayland transport error: ").concat(m.as_str()),
            Error::Unsupported => String::from_str(
                "tizen-screenshot not supported on this host build (Tizen-only)",
            ),
        }
    }
}

/// Whether a capturer may be opened at all: a host build is unsupported
/// unless the host carries the TBM client library (and so is likely a
/// Tizen system); a build for Tizen always goes on.
pub fn check_host(on_target: bool, tbm_library_present: bool) -> (r: Result<(), Error>)
    ensures
        r == (if !on_target && !tbm_library_present { Err(Error::Unsupported) } else { Ok(()) }),
{
    if !on_target && !tbm_library_present {
        Err(Error::Unsupported)
    } else {
        Ok(())
    }
}

/// The outcome of the registry walk: the screenshooter must be there, in
/// version 3 or later, and an output must be there.
pub fn check_globals(shooter_present: bool, shooter_version: Option<u32>, output_present: bool) -> (r: Result<(), Error>)
    ensures
        ({
            let v = match shooter_version { Some(v) => v, None => 0 };
            r == (if !shooter_present {
                Err(Error::ProtocolUnavailable)
            } else if v < REQUIRED_VERSION {
                Err(Error::ProtocolTooOld { advertised: v, required: REQUIRED_VERSION })
            } else if !output_present {
                Err(Error::NoOutput)
            } else {
                Ok(())
            })
        }),
{
    if !shooter_present {
        return Err(Error::ProtocolUnavailable);
    }
    let advertised: u32 = match shooter_version {
        Some(v) => v,
        None => 0,
    };
    if advertised < REQUIRED_VERSION {
        return Err(Error::ProtocolTooOld { advertised, required: REQUIRED_VERSION });
    }
    if !output_present {
        return Err(Error::NoOutput);
    }
    Ok(())
}

/// A global of the registry that the capturer needs.
#[derive(Debug, Clone, Copy, PartialEq, Eq, Structural)]
pub enum ShotGlobal {
    /// `tizen_screenshooter`.
    Screenshooter,
    /// `wl_output`.
    Output,
}

/// Which global an advertised interface is and the version to bind it at:
/// the screenshooter at the advertised version, the first `wl_output` up
/// to 2; later outputs are ignored.
pub open spec fn shot_global_of(interface: Seq<char>, version: u32, have_output: bool) -> Option<(ShotGlobal, u32)> {
    if interface == "tizen_screenshooter"@ {
        Some((ShotGlobal::Screenshooter, version))
    } else if interface == "wl_output"@ && !have_output {
        Some((ShotGlobal::Output, if version < 2 { version } else { 2 }))
    } else {
        None
    }
}

/// Decide whether and at which version to bind an advertised global.
pub fn shot_global(interface: &str, version: u32, have_output: bool) -> (r: Option<(ShotGlobal, u32)>)
    ensures
        r == shot_global_of(interface@, version, have_output),
{
    if same_text(interface, "tizen_screenshooter") {
        Some((ShotGlobal::Screenshooter, version))
    } else if same_text(interface, "wl_output") && !have_output {
        Some((ShotGlobal::Output, if version < 2 { version } else { 2 }))
    } else {
        None
    }
}

/// `wl_output.mode`: a positive size replaces the recorded one.
pub fn output_mode(recorded: Option<(u32, u32)>, width: i32, height: i32) -> (r: Option<(u32, u32)>)
    ensures
        r == (if width > 0 && height > 0 { Some((width as u32, height as u32)) } else { recorded }),
{
    if width > 0 && height > 0 {
        Some((width as u32, height as u32))
    } else {
        recorded
    }
}

/// Size of a full-screen shot: the last size the output reported when it
/// is positive, 1920 x 1080 otherwise.
pub fn output_size(reported: Option<(u32, u32)>) -> (r: (u32, u32))
    ensures
        r == (match reported {
            Some((w, h)) => if w > 0 && h > 0 { (w, h) } else { (FALLBACK_WIDTH, FALLBACK_HEIGHT) },
            None => (FALLBACK_WIDTH, FALLBACK_HEIGHT),
        }),
{
    match reported {
        Some((w, h)) => if w > 0 && h > 0 { (w, h) } else { (FALLBACK_WIDTH, FALLBACK_HEIGHT) },
        None => (FALLBACK_WIDTH, FALLBACK_HEIGHT),
    }
}

/// The buffer size of an area shot of `w` x `h` at (`x`, `y`) on a
/// screenshooter of version `shooter_version`: the size must be positive
/// and the version 4 or later.
pub fn area_request(x: i32, y: i32, w: i32, h: i32, shooter_version: u32) -> (r: Result<(u32, u32), Error>)
    ensures
        w <= 0 || h <= 0 ==> (r matches Err(Error::BufferAllocation(m)) && m@ == "non-positive dimensions ("@
            + decimal_text(w as int) + ", "@ + decimal_text(h as int) + ")"@),
        w > 0 && h > 0 && shooter_version < AREA_SHOOT_VERSION ==> r == Err::<(u32, u32), Error>(
            Error::ProtocolTooOld { advertised: shooter_version, required: AREA_SHOOT_VERSION },
        ),
        w > 0 && h > 0 && shooter_version >= AREA_SHOOT_VERSION ==> r == Ok::<(u32, u32), Error>(
            (w as u32, h as u32),
        ),
{
    if w <= 0 || h <= 0 {
        let mut m = String::from_str("non-positive dimensions (");
        append_decimal(&mut m, w as i64);
        m.append(", ");
        append_decimal(&mut m, h as i64);
        m.append(")");
        return Err(Error::BufferAllocation(m));
    }
    if shooter_version < AREA_SHOOT_VERSION {
        return Err(Error::ProtocolTooOld { advertised: shooter_version, required: AREA_SHOOT_VERSION });
    }
    Ok((w as u32, h as u32))
}

/// The error for a buffer of `w` x `h` that `tbm_surface_create` refused.
pub fn surface_allocation_error(w: u32, h: u32) -> (r: Error)
    ensures
        r matches Error::BufferAllocation(m) && m@ == "tbm_surface_create("@ + decimal_text(w as int)
            + ", "@ + decimal_text(h as int) + ") returned NULL"@,
{
    let mut m = String::from_str("tbm_surface_create(");
    append_decimal(&mut m, w as i64);
    m.append(", ");
    append_decimal(&mut m, h as i64);
    m.append(") returned NULL");
    Error::BufferAllocation(m)
}

/// Whether the capture the caller waits for has completed: the area shot
/// for an area request, the full shot otherwise.
pub fn capture_finished(want_area: bool, shot_done: bool, area_shot_done: bool) -> (r: bool)
    ensures
        r == (if want_area { area_shot_done } else { shot_done }),
{
    if want_area { area_shot_done } else { shot_done }
}

/// Where a capture stands.
#[derive(Debug, Clone, Copy, PartialEq, Eq, Structural)]
pub enum CaptureStage {
    /// Waiting for `tbm_surface_create`.
    Creating,
    /// Waiting for the `wl_buffer` over the surface.
    Wrapping,
    /// Waiting for the buffer's proxy object.
    Proxying,
    /// Waiting to learn whether an output is bound.
    Requesting,
    /// The shot was asked for; waiting for its `done` event.
    Waiting,
    /// Waiting for the pixels to be copied out.
    Copying,
    /// Finished; everything taken was given back.
    Done,
}

/// A capture in progress: its stage, whether it is an area shot, and which
/// resources it holds.
#[derive(Debug, Clone, Copy, PartialEq, Eq, Structural)]
pub struct CaptureState {
    /// Where the capture stands.
    pub stage: CaptureStage,
    /// An area shot rather than a full one.
    pub want_area: bool,
    /// A TBM surface is held.
    pub surface: bool,
    /// A `wl_buffer` over the surface is held.
    pub buffer: bool,
}

/// The answer to the last action of a capture.
#[derive(Debug)]
pub enum CaptureEvent {
    /// `tbm_surface_create` returned a surface (`true`) or NULL.
    SurfaceCreated(bool),
    /// `wayland_tbm_client_create_buffer` returned a buffer (`Ok(true)`),
    /// NULL (`Ok(false)`) or failed with this message.
    BufferCreated(Result<bool, String>),
    /// The buffer's proxy object was made, or failed with this message.
    ProxyMade(Result<(), String>),
    /// An output is bound (`true`) or none is.
    OutputFound(bool),
    /// One dispatch of the event queue: the full and area `done` flags, or
    /// the transport failure.
    Dispatched(Result<(bool, bool), String>),
    /// The pixels were copied out, or mapping them failed.
    CopiedOut(Result<(), Error>),
}

/// How a capture ended.
#[derive(Debug)]
pub enum CaptureOutcome {
    /// The frame was copied out.
    Captured,
    /// `tbm_surface_create` returned NULL.
    SurfaceRefused,
    /// `wayland_tbm_client_create_buffer` returned NULL.
    BufferRefused,
    /// Another failure.
    Failed(Error),
}

/// What to do next in a capture.
#[derive(Debug)]
pub enum CaptureAction {
    /// Wrap the surface in a `wl_buffer`.
    CreateBuffer,
    /// Make the buffer's proxy object.
    MakeProxy,
    /// Look for the bound output.
    FindOutput,
    /// Clear the `done` flags, send `area_shoot` (for an area) or `shoot`,
    /// and dispatch the event queue once.
    Shoot { area: bool },
    /// Dispatch the event queue once more.
    Dispatch,
    /// Map the surface and copy the pixels out.
    CopyOut,
    /// Give back the buffer and then the surface where these say so, and
    /// end with this outcome.
    Finish { release_buffer: bool, release_surface: bool, outcome: CaptureOutcome },
}

/// Whether `ev` answers what a capture at `stage` asked for.
pub open spec fn event_fits(stage: CaptureStage, ev: CaptureEvent) -> bool {
    match ev {
        CaptureEvent::SurfaceCreated(_) => stage == CaptureStage::Creating,
        CaptureEvent::BufferCreated(_) => stage == CaptureStage::Wrapping,
        CaptureEvent::ProxyMade(_) => stage == CaptureStage::Proxying,
        CaptureEvent::OutputFound(_) => stage == CaptureStage::Requesting,
        CaptureEvent::Dispatched(_) => stage == CaptureStage::Waiting,
        CaptureEvent::CopiedOut(_) => stage == CaptureStage::Copying,
    }
}

/// Ending a capture: give back exactly what is held.
pub open spec fn capture_finish(s: CaptureState, outcome: CaptureOutcome) -> (CaptureState, CaptureAction) {
    (
        CaptureState { stage: CaptureStage::Done, surface: false, buffer: false, ..s },
        CaptureAction::Finish { release_buffer: s.buffer, release_surface: s.surface, outcome },
    )
}

/// One step of a capture: allocate a surface, wrap it in a buffer, make the
/// buffer's proxy, find the output, shoot, dispatch until the wanted
/// `done` arrives, copy the pixels out. Any failure ends the capture, as
/// does the copy, and the end gives back whatever is held.
pub open spec fn capture_transition(s: CaptureState, ev: CaptureEvent) -> (CaptureState, CaptureAction) {
    match ev {
        CaptureEvent::SurfaceCreated(ok) => if ok {
            (CaptureState { stage: CaptureStage::Wrapping, surface: true, ..s }, CaptureAction::CreateBuffer)
        } else {
            capture_finish(s, CaptureOutcome::SurfaceRefused)
        },
        CaptureEvent::BufferCreated(r) => match r {
            Ok(made) => if made {
                (CaptureState { stage: CaptureStage::Proxying, buffer: true, ..s }, CaptureAction::MakeProxy)
            } else {
                capture_finish(s, CaptureOutcome::BufferRefused)
            },
            Err(m) => capture_finish(s, CaptureOutcome::Failed(Error::BufferAllocation(m))),
        },
        CaptureEvent::ProxyMade(r) => match r {
            Ok(()) => (CaptureState { stage: CaptureStage::Requesting, ..s }, CaptureAction::FindOutput),
            Err(m) => capture_finish(s, CaptureOutcome::Failed(Error::BufferAllocation(m))),
        },
        CaptureEvent::OutputFound(found) => if found {
            (CaptureState { stage: CaptureStage::Waiting, ..s }, CaptureAction::Shoot { area: s.want_area })
        } else {
            capture_finish(s, CaptureOutcome::Failed(Error::NoOutput))
        },
        CaptureEvent::Dispatched(r) => match r {
            Ok((shot_done, area_shot_done)) => if (if s.want_area { area_shot_done } else { shot_done }) {
                (CaptureState { stage: CaptureStage::Copying, ..s }, CaptureAction::CopyOut)
            } else {
                (s, CaptureAction::Dispatch)
            },
            Err(m) => capture_finish(s, CaptureOutcome::Failed(Error::Transport(m))),
        },
        CaptureEvent::CopiedOut(r) => match r {
            Ok(()) => capture_finish(s, CaptureOutcome::Captured),
            Err(e) => capture_finish(s, CaptureOutcome::Failed(e)),
        },
    }
}

/// A capture about to allocate its surface, holding nothing.
pub open spec fn capture_start(want_area: bool) -> CaptureState {
    CaptureState { stage: CaptureStage::Creating, want_area, surface: false, buffer: false }
}

impl CaptureState {
    /// A capture about to allocate its surface, holding nothing.
    pub fn new(want_area: bool) -> (r: Self)
        ensures
            r == capture_start(want_area),
    {
        CaptureState { stage: CaptureStage::Creating, want_area, surface: false, buffer: false }
    }

    /// Take in the answer to the last action and say what to do next (see
    /// [`capture_transition`]).
    pub fn step(&mut self, ev: CaptureEvent) -> (r: CaptureAction)
        requires
            event_fits(old(self).stage, ev),
        ensures
            (*final(self), r) == capture_transition(*old(self), ev),
    {
        match ev {
            CaptureEvent::SurfaceCreated(ok) => {
                if ok {
                    self.stage = CaptureStage::Wrapping;
                    self.surface = true;
                    CaptureAction::CreateBuffer
                } else {
                    self.finish(CaptureOutcome::SurfaceRefused)
                }
            },
            CaptureEvent::BufferCreated(r) => match r {
                Ok(made) => {
                    if made {
                        self.stage = CaptureStage::Proxying;
                        self.buffer = true;
                        CaptureAction::MakeProxy
                    } else {
                        self.finish(CaptureOutcome::BufferRefused)
                    }
                },
                Err(m) => self.finish(CaptureOutcome::Failed(Error::BufferAllocation(m))),
            },
            CaptureEvent::ProxyMade(r) => match r {
                Ok(()) => {
                    self.stage = CaptureStage::Requesting;
                    CaptureAction::FindOutput
                },
                Err(m) => self.finish(CaptureOutcome::Failed(Error::BufferAllocation(m))),
            },
            CaptureEvent::OutputFound(found) => {
                if found {
                    self.stage = CaptureStage::Waiting;
                    CaptureAction::Shoot { area: self.want_area }
                } else {
                    self.finish(CaptureOutcome::Failed(Error::NoOutput))
                }
            },
            CaptureEvent::Dispatched(r) => match r {
                Ok((shot_done, area_shot_done)) => {
                    if capture_finished(self.want_area, shot_done, area_shot_done) {
                        self.stage = CaptureStage::Copying;
                        CaptureAction::CopyOut
                    } else {
                        CaptureAction::Dispatch
                    }
                },
                Err(m) => self.finish(CaptureOutcome::Failed(Error::Transport(m))),
            },
            CaptureEvent::CopiedOut(r) => match r {
                Ok(()) => self.finish(CaptureOutcome::Captured),
                Err(e) => self.finish(CaptureOutcome::Failed(e)),
            },
        }
    }

    /// End the capture, giving back what is held.
    fn finish(&mut self, outcome: CaptureOutcome) -> (r: CaptureAction)
        ensures
            (*final(self), r) == capture_finish(*old(self), outcome),
    {
        let act = CaptureAction::Finish { release_buffer: self.buffer, release_surface: self.surface, outcome };
        self.stage = CaptureStage::Done;
        self.surface = false;
        self.buffer = false;
        act
    }
}

/// What a capture of `w` x `h` that ended with `outcome` returns.
pub fn outcome_result(outcome: CaptureOutcome, w: u32, h: u32) -> (r: Result<(), Error>)
    ensures
        match outcome {
            CaptureOutcome::Captured => r is Ok,
            CaptureOutcome::SurfaceRefused => r matches Err(Error::BufferAllocation(m)) && m@
                == "tbm_surface_create("@ + decimal_text(w as int) + ", "@ + decimal_text(h as int)
                + ") returned NULL"@,
            CaptureOutcome::BufferRefused => r matches Err(Error::BufferAllocation(m)) && m@
                == "wayland_tbm_client_create_buffer returned NULL"@,
            CaptureOutcome::Failed(e) => r == Err::<(), Error>(e),
        },
{
    match outcome {
        CaptureOutcome::Captured => Ok(()),
        CaptureOutcome::SurfaceRefused => Err(surface_allocation_error(w, h)),
        CaptureOutcome::BufferRefused => Err(
            Error::BufferAllocation(String::from_str("wayland_tbm_client_create_buffer returned NULL")),
        ),
        CaptureOutcome::Failed(e) => Err(e),
    }
}

/// Whether an action gives back the surface, and the buffer.
pub open spec fn releases(a: CaptureAction) -> (nat, nat) {
    match a {
        CaptureAction::Finish { release_buffer, release_surface, .. } => (
            if release_surface { 1nat } else { 0nat },
            if release_buffer { 1nat } else { 0nat },
        ),
        _ => (0nat, 0nat),
    }
}

/// Whether an event hands the capture a surface, and a buffer.
pub open spec fn acquires(ev: CaptureEvent) -> (nat, nat) {
    match ev {
        CaptureEvent::SurfaceCreated(ok) => (if ok { 1nat } else { 0nat }, 0nat),
        CaptureEvent::BufferCreated(r) => (0nat, if r == Ok::<bool, String>(true) { 1nat } else { 0nat }),
        _ => (0nat, 0nat),
    }
}

/// A capture from `s` answered by `evs` in turn: its state, the surfaces
/// and buffers handed to it, and those it gave back.
pub open spec fn capture_run(s: CaptureState, evs: Seq<CaptureEvent>) -> (CaptureState, (nat, nat), (nat, nat))
    decreases evs.len(),
{
    if evs.len() == 0 {
        (s, (0nat, 0nat), (0nat, 0nat))
    } else {
        let (p, got, back) = capture_run(s, evs.drop_last());
        let (n, a) = capture_transition(p, evs.last());
        (n, (got.0 + acquires(evs.last()).0, got.1 + acquires(evs.last()).1), (
            back.0 + releases(a).0,
            back.1 + releases(a).1,
        ))
    }
}

/// Every event of `evs` answers what the capture asked for at that point.
pub open spec fn run_fits(s: CaptureState, evs: Seq<CaptureEvent>) -> bool
    decreases evs.len(),
{
    if evs.len() == 0 {
        true
    } else {
        run_fits(s, evs.drop_last()) && event_fits(capture_run(s, evs.drop_last()).0.stage, evs.last())
    }
}

/// A capture that waits for its shot copies out exactly when the `done`
/// event of the kind of shot it asked for has come (`area_shoot`'s for an
/// area capture, `shoot`'s for a full one), and otherwise dispatches again,
/// unchanged; a failed dispatch ends it, giving back both buffers.
pub proof fn lemma_capture_waits_for_its_done(s: CaptureState, shot_done: bool, area_shot_done: bool, m: String)
    requires
        s.stage == CaptureStage::Waiting,
        s.surface && s.buffer,
    ensures
        ({
            let (n, a) = capture_transition(s, CaptureEvent::Dispatched(Ok((shot_done, area_shot_done))));
            &&& s.want_area ==> (n.stage == CaptureStage::Copying <==> area_shot_done)
            &&& !s.want_area ==> (n.stage == CaptureStage::Copying <==> shot_done)
            &&& n.stage == CaptureStage::Copying ==> a is CopyOut && n.surface && n.buffer
                && n.want_area == s.want_area
            &&& n.stage != CaptureStage::Copying ==> n == s && a is Dispatch
        }),
        ({
            let (n, a) = capture_transition(s, CaptureEvent::Dispatched(Err(m)));
            &&& n.stage == CaptureStage::Done
            &&& a matches CaptureAction::Finish { release_buffer, release_surface, outcome } && release_buffer
                && release_surface && outcome == CaptureOutcome::Failed(Error::Transport(m))
        }),
{
}

/// What a capture holds is what it was handed less what it gave back, it
/// is handed at most one surface and one buffer, and a finished capture
/// holds nothing.
proof fn lemma_capture_accounting(want_area: bool, evs: Seq<CaptureEvent>)
    requires
        run_fits(capture_start(want_area), evs),
    ensures
        ({
            let (st, got, back) = capture_run(capture_start(want_area), evs);
            &&& got.0 == back.0 + (if st.surface { 1nat } else { 0nat })
            &&& got.1 == back.1 + (if st.buffer { 1nat } else { 0nat })
            &&& got.0 <= 1 && got.1 <= 1
            &&& st.stage == CaptureStage::Creating ==> got.0 == 0 && got.1 == 0
            &&& st.stage == CaptureStage::Wrapping ==> got.1 == 0 && st.surface
            &&& (st.stage != CaptureStage::Creating && st.stage != CaptureStage::Done) ==> st.surface
            &&& (st.stage != CaptureStage::Creating && st.stage != CaptureStage::Wrapping
                && st.stage != CaptureStage::Done) ==> st.buffer
            &&& st.stage == CaptureStage::Done ==> !st.surface && !st.buffer
            &&& st.want_area == want_area
        }),
    decreases evs.len(),
{
    if evs.len() > 0 {
        lemma_capture_accounting(want_area, evs.drop_last());
    }
}

/// Resources of a capture are given back exactly once on every path that
/// ends it: once a capture has finished, it gave back the surface exactly
/// when it was handed one, and the buffer exactly when it was handed one,
/// each at most once.
pub proof fn lemma_capture_releases_once(want_area: bool, evs: Seq<CaptureEvent>)
    requires
        run_fits(capture_start(want_area), evs),
        capture_run(capture_start(want_area), evs).0.stage == CaptureStage::Done,
    ensures
        ({
            let (_, got, back) = capture_run(capture_start(want_area), evs);
            &&& back.0 == got.0 && back.0 <= 1
            &&& back.1 == got.1 && back.1 <= 1
        }),
{
    lemma_capture_accounting(want_area, evs);
}

/// Row pitch and length of the pixels to copy out of a mapped buffer.
#[derive(Debug, Clone, Copy, PartialEq, Eq, Structural)]
pub struct FrameLayout {
    /// Bytes per row.
    pub stride: u32,
    /// Bytes to copy.
    pub len: usize,
}

/// The smaller of `a` and the largest `usize`.
pub open spec fn saturate_usize(a: int) -> int {
    if a > usize::MAX { usize::MAX as int } else { a }
}

/// What to copy out of a buffer whose `tbm_surface_map` returned `map_rc`
/// and described a `width` x `height` image whose first plane has
/// `plane_stride` bytes per row: rows are at least `width * 4` bytes apart,
/// and the copy covers `stride * height` bytes (saturated). A failed map,
/// a null plane or an empty copy is an error.
pub fn mapped_layout(map_rc: i32, width: u32, height: u32, plane_stride: u32, plane_is_null: bool) -> (r: Result<FrameLayout, Error>)
    requires
        width as int * 4 <= u32::MAX,
    ensures
        map_rc != 0 ==> (r matches Err(Error::BufferMap(m)) && m@ == "tbm_surface_map rc="@
            + decimal_text(map_rc as int)),
        map_rc == 0 ==> ({
            let stride = if plane_stride >= width * 4 { plane_stride as int } else { width * 4 };
            let len = saturate_usize(stride * height);
            &&& (plane_is_null || len == 0) ==> (r matches Err(Error::BufferMap(m)) && m@
                == "tbm_surface_map produced a NULL plane pointer"@)
            &&& !(plane_is_null || len == 0) ==> (r matches Ok(layout) && layout.stride == stride
                && layout.len == len)
        }),
{
    if map_rc != 0 {
        let mut m = String::from_str("tbm_surface_map rc=");
        append_decimal(&mut m, map_rc as i64);
        return Err(Error::BufferMap(m));
    }
    let min_stride: u32 = width * 4;
    let stride: u32 = if plane_stride >= min_stride { plane_stride } else { min_stride };
    let len: usize = match (stride as usize).checked_mul(height as usize) {
        Some(v) => v,
        None => usize::MAX,
    };
    if plane_is_null || len == 0 {
        return Err(Error::BufferMap(String::from_str("tbm_surface_map produced a NULL plane pointer")));
    }
    Ok(FrameLayout { stride, len })
}

/// A captured screen image that owns its pixels.
#[derive(Debug)]
pub struct ScreenFrame {
    width: u32,
    height: u32,
    stride: u32,
    bytes: Vec<u8>,
}

impl ScreenFrame {
    /// Width in pixels.
    pub closed spec fn width_view(&self) -> u32 {
        self.width
    }

    /// Height in pixels.
    pub closed spec fn height_view(&self) -> u32 {
        self.height
    }

    /// Bytes per row.
    pub closed spec fn stride_view(&self) -> u32 {
        self.stride
    }

    /// The pixel bytes.
    pub closed spec fn bytes_view(&self) -> Seq<u8> {
        self.bytes@
    }

    /// Rows hold at least a full row of pixels, and the bytes are exactly
    /// `stride * height` long, never empty: a capture that maps no pixel is
    /// an error, not a frame.
    #[verifier::type_invariant]
    spec fn well_formed(&self) -> bool {
        &&& self.width as int * 4 <= self.stride
        &&& self.bytes@.len() == self.stride as int * self.height as int
        &&& self.bytes@.len() > 0
    }

    /// A frame of the given geometry over `bytes`, which hold at least one byte.
    pub fn new(width: u32, height: u32, stride: u32, bytes: Vec<u8>) -> (r: Self)
        requires
            width as int * 4 <= stride,
            bytes@.len() == stride as int * height as int,
            bytes@.len() > 0,
        ensures
            r.width_view() == width,
            r.height_view() == height,
            r.stride_view() == stride,
            r.bytes_view() == bytes@,
    {
        ScreenFrame { width, height, stride, bytes }
    }

    /// Frame width in pixels.
    pub fn width(&self) -> (r: u32)
        ensures
            r == self.width_view(),
    {
        self.width
    }

    /// Frame height in pixels.
    pub fn height(&self) -> (r: u32)
        ensures
            r == self.height_view(),
    {
        self.height
    }

    /// Bytes per row in the raw buffer; at least four per pixel.
    pub fn stride(&self) -> (r: u32)
        ensures
            r == self.stride_view(),
            self.width_view() as int * 4 <= r,
    {
        proof {
            use_type_invariant(self);
        }
        self.stride
    }

    /// Format fourcc: always [`SHOT_FORMAT`].
    pub fn format(&self) -> (r: u32)
        ensures
            r == SHOT_FORMAT,
    {
        SHOT_FORMAT
    }

    /// Raw pixel bytes in `XRGB8888` little-endian order; there are
    /// `stride * height` of them, and at least one.
    pub fn bytes(&self) -> (r: &[u8])
        ensures
            r@ == self.bytes_view(),
            r@.len() == self.stride_view() as int * self.height_view() as int,
            r@.len() > 0,
    {
        proof {
            use_type_invariant(self);
        }
        self.bytes.as_slice()
    }

    /// Consume the frame and return its bytes (never empty).
    pub fn into_bytes(self) -> (r: Vec<u8>)
        ensures
            r@ == self.bytes_view(),
            r@.len() == self.stride_view() as int * self.height_view() as int,
            r@.len() > 0,
    {
        proof {
            use_type_invariant(&self);
        }
        self.bytes
    }
}

impl Clone for ScreenFrame {
    /// A frame with the same geometry and bytes.
    fn clone(&self) -> (r: Self)
        ensures
            r.width_view() == self.width_view(),
            r.height_view() == self.height_view(),
            r.stride_view() == self.stride_view(),
            r.bytes_view() == self.bytes_view(),
    {
        proof {
            use_type_invariant(self);
        }
        let bytes = self.bytes.clone();
        assert(bytes@ =~= self.bytes@);
        ScreenFrame { width: self.width, height: self.height, stride: self.stride, bytes }
    }
}

} // verus!
