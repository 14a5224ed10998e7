//! Injection of input events through the `tizen_input_device_manager`
//! protocol: device classes, key states, the generator builder and the
//! reading of the compositor's acknowledgements.

use vstd::prelude::*;

use crate::text::{append_decimal, decimal_text, same_text};

verus! {

/// The `error` enum of `tizen_input_device_manager`.
#[derive(Debug, Copy, Clone, Eq, PartialEq, Structural)]
pub enum ProtocolError {
    /// `no_permission` (1).
    NoPermission,
    /// `invalid_class` (2).
    InvalidClass,
    /// `blocked_already` (3).
    BlockedAlready,
    /// `no_system_resources` (4).
    NoSystemResources,
    /// `invalid_parameter` (5).
    InvalidParameter,
    /// `invalid_surface` (6).
    InvalidSurface,
    /// `no_pointer_available` (7).
    NoPointerAvailable,
    /// `not_allowed` (8).
    NotAllowed,
    /// A code this binding does not know.
    Unknown(u32),
}

/// The error a protocol error code stands for.
pub open spec fn protocol_error_of(code: u32) -> ProtocolError {
    if code == 1 {
        ProtocolError::NoPermission
    } else if code == 2 {
        ProtocolError::InvalidClass
    } else if code == 3 {
        ProtocolError::BlockedAlready
    } else if code == 4 {
        ProtocolError::NoSystemResources
    } else if code == 5 {
        ProtocolError::InvalidParameter
    } else if code == 6 {
        ProtocolError::InvalidSurface
    } else if code == 7 {
        ProtocolError::NoPointerAvailable
    } else if code == 8 {
        ProtocolError::NotAllowed
    } else {
        ProtocolError::Unknown(code)
    }
}

/// The `tizen_input_device_manager` error codes, code by code: 1
/// no_permission, 2 invalid_class, 3 blocked_already, 4
/// no_system_resources, 5 invalid_parameter, 6 invalid_surface, 7
/// no_pointer_available, 8 not_allowed; any other code is kept as unknown.
pub proof fn lemma_protocol_error_table(code: u32)
    ensures
        protocol_error_of(code) == ProtocolError::NoPermission <==> code == 1,
        protocol_error_of(code) == ProtocolError::InvalidClass <==> code == 2,
        protocol_error_of(code) == ProtocolError::BlockedAlready <==> code == 3,
        protocol_error_of(code) == ProtocolError::NoSystemResources <==> code == 4,
        protocol_error_of(code) == ProtocolError::InvalidParameter <==> code == 5,
        protocol_error_of(code) == ProtocolError::InvalidSurface <==> code == 6,
        protocol_error_of(code) == ProtocolError::NoPointerAvailable <==> code == 7,
        protocol_error_of(code) == ProtocolError::NotAllowed <==> code == 8,
        !(1 <= code <= 8) ==> protocol_error_of(code) == ProtocolError::Unknown(code),
{
}

/// The protocol name of an error, `unknown(<code>)` for unknown codes.
pub open spec fn protocol_error_text(e: ProtocolError) -> Seq<char> {
    match e {
        ProtocolError::NoPermission => "no_permission"@,
        ProtocolError::InvalidClass => "invalid_class"@,
        ProtocolError::BlockedAlready => "blocked_already"@,
        ProtocolError::NoSystemResources => "no_system_resources"@,
        ProtocolError::InvalidParameter => "invalid_parameter"@,
        ProtocolError::InvalidSurface => "invalid_surface"@,
        ProtocolError::NoPointerAvailable => "no_pointer_available"@,
        ProtocolError::NotAllowed => "not_allowed"@,
        ProtocolError::Unknown(code) => "unknown("@ + decimal_text(code as int) + ")"@,
    }
}

impl ProtocolError {
    /// Decode an `error` event code (0 is the success acknowledgement and
    /// is not an error).
    pub fn from_code(code: u32) -> (r: Self)
        ensures
            r == protocol_error_of(code),
    {
        match code {
            1 => ProtocolError::NoPermission,
            2 => ProtocolError::InvalidClass,
            3 => ProtocolError::BlockedAlready,
            4 => ProtocolError::NoSystemResources,
            5 => ProtocolError::InvalidParameter,
            6 => ProtocolError::InvalidSurface,
            7 => ProtocolError::NoPointerAvailable,
            8 => ProtocolError::NotAllowed,
            other => ProtocolError::Unknown(other),
        }
    }

    /// The protocol name of the error.
    pub fn name(&self) -> (r: String)
        ensures
            r@ == protocol_error_text(*self),
    {
        match self {
            ProtocolError::NoPermission => String::from_str("no_permission"),
            ProtocolError::InvalidClass => String::from_str("invalid_class"),
            ProtocolError::BlockedAlready => String::from_str("blocked_already"),
            ProtocolError::NoSystemResources => String::from_str("no_system_resources"),
            ProtocolError::InvalidParameter => String::from_str("invalid_parameter"),
            ProtocolError::InvalidSurface => String::from_str("invalid_surface"),
            ProtocolError::NoPointerAvailable => String::from_str("no_pointer_available"),
            ProtocolError::NotAllowed => String::from_str("not_allowed"),
            ProtocolError::Unknown(code) => {
                let mut s = String::from_str("unknown(");
                append_decimal(&mut s, *code as i64);
                s.append(")");
                s
            },
        }
    }
}

/// Failure of an input generator.
#[derive(Debug, Clone, PartialEq, Eq)]
pub enum Error {
    /// The Wayland connection could not be made.
    NotConnected(String),
    /// The compositor does not advertise `tizen_input_device_manager`.
    ProtocolUnavailable,
    /// The compositor rejected the request.
    Rejected(ProtocolError),
    /// The Wayland event queue failed.
    Transport(String),
    /// Called on a build with no reachable Tizen compositor.
    Unsupported,
}

/// The text an [`Error`] displays as.
pub open spec fn error_text(e: Error) -> Seq<char> {
    match e {
        Error::NotConnected(m) => "wayland connect failed: "@ + m@,
        Error::ProtocolUnavailable => "compositor does not advertise tizen_input_device_manager \u{2014} this only works on a Tizen compositor"@,
        Error::Rejected(p) => "compositor rejected the request: "@ + protocol_error_text(p),
        Error::Transport(m) => "wayland transport error: "@ + m@,
        Error::Unsupported => "tizen-input not supported on this host build (no reachable Tizen compositor)"@,
    }
}

impl Error {
    /// The human-readable description of the error.
    pub fn message(&self) -> (r: String)
        ensures
            r@ == error_text(*self),
    {
        match self {
            Error::NotConnected(m) => String::from_str("wayland connect failed: ").concat(m.as_str()),
            Error::ProtocolUnavailable => String::from_str(
                "compositor does not advertise tizen_input_device_manager \u{2014} this only works on a Tizen compositor",
            ),
            Error::Rejected(p) => {
                let name = p.name();
                String::from_str("compositor rejected the request: ").concat(name.as_str())
            },
            Error::Transport(m) => String::from_str("wayland transport error: ").concat(m.as_str()),
            Error::Unsupported => String::from_str(
                "tizen-input not supported on this host build (no reachable Tizen compositor)",
            ),
        }
    }
}

/// Device classes a generator can pretend to be, one bit per class.
#[derive(Debug, Copy, Clone, Eq, PartialEq, Structural)]
pub struct DeviceType {
    pub bits: u32,
}

impl DeviceType {
    /// Pointer / mouse device.
    pub const POINTER: u32 = 1;
    /// Keyboard device.
    pub const KEYBOARD: u32 = 2;
    /// Touchscreen device.
    pub const TOUCHSCREEN: u32 = 4;

    /// The classes whose bits are set in `bits`; unknown bits are dropped.
    pub fn from_bits_truncate(bits: u32) -> (r: Self)
        ensures
            r.bits == bits & 7,
    {
        DeviceType { bits: bits & 7 }
    }

    /// No class.
    pub fn empty() -> (r: Self)
        ensures
            r.bits == 0,
    {
        DeviceType { bits: 0 }
    }

    /// A pointer.
    pub fn pointer() -> (r: Self)
        ensures
            r.bits == Self::POINTER,
    {
        DeviceType { bits: Self::POINTER }
    }

    /// A keyboard.
    pub fn keyboard() -> (r: Self)
        ensures
            r.bits == Self::KEYBOARD,
    {
        DeviceType { bits: Self::KEYBOARD }
    }

    /// A touchscreen.
    pub fn touchscreen() -> (r: Self)
        ensures
            r.bits == Self::TOUCHSCREEN,
    {
        DeviceType { bits: Self::TOUCHSCREEN }
    }

    /// Both sets of classes.
    pub fn union(self, other: Self) -> (r: Self)
        ensures
            r.bits == self.bits | other.bits,
    {
        DeviceType { bits: self.bits | other.bits }
    }

    /// Whether every bit of `flag` is set.
    pub fn contains(&self, flag: u32) -> (r: bool)
        ensures
            r == (self.bits & flag == flag),
    {
        self.bits & flag == flag
    }

    /// Whether no class is set.
    pub fn is_empty(&self) -> (r: bool)
        ensures
            r == (self.bits == 0),
    {
        self.bits == 0
    }
}

/// The protocol's `clas` bitmask for a set of device classes: mouse (1),
/// keyboard (2) and touchscreen (4) for the pointer, keyboard and
/// touchscreen bits.
pub fn clas_for(devices: DeviceType) -> (r: u32)
    ensures
        r == devices.bits & 7,
{
    let mouse: u32 = if devices.contains(DeviceType::POINTER) { 1 } else { 0 };
    let keyboard: u32 = if devices.contains(DeviceType::KEYBOARD) { 2 } else { 0 };
    let touchscreen: u32 = if devices.contains(DeviceType::TOUCHSCREEN) { 4 } else { 0 };
    let c: u32 = mouse | keyboard | touchscreen;
    let b: u32 = devices.bits;
    assert(c == b & 7) by (bit_vector)
        requires
            c == (if b & 1 == 1 { 1u32 } else { 0u32 }) | (if b & 2 == 2 { 2u32 } else { 0u32 }) | (
            if b & 4 == 4 { 4u32 } else { 0u32 }),
    ;
    c
}

/// Whether a key event is a press or a release.
#[derive(Debug, Copy, Clone, Eq, PartialEq, Structural)]
pub enum KeyState {
    /// Press (`pressed = 1` on the wire).
    Pressed,
    /// Release (`pressed = 0` on the wire).
    Released,
}

impl KeyState {
    /// The wire value.
    pub fn as_u32(self) -> (r: u32)
        ensures
            r == (if self == KeyState::Pressed { 1u32 } else { 0u32 }),
    {
        match self {
            KeyState::Pressed => 1,
            KeyState::Released => 0,
        }
    }
}

/// Builder for an input generator.
#[derive(Debug)]
pub struct InputGeneratorBuilder {
    devices: DeviceType,
    name: Option<String>,
}

impl InputGeneratorBuilder {
    /// The device classes to register.
    pub closed spec fn devices_view(&self) -> DeviceType {
        self.devices
    }

    /// The name sent to the compositor, if any.
    pub closed spec fn name_view(&self) -> Option<Seq<char>> {
        match self.name {
            Some(n) => Some(n@),
            None => None,
        }
    }

    /// The defaults: a keyboard, no name.
    pub fn new() -> (r: Self)
        ensures
            r.devices_view().bits == DeviceType::KEYBOARD,
            r.name_view() is None,
    {
        InputGeneratorBuilder { devices: DeviceType::keyboard(), name: None }
    }

    /// Which device classes to register.
    pub fn device(self, devices: DeviceType) -> (r: Self)
        ensures
            r.devices_view() == devices,
            r.name_view() == self.name_view(),
    {
        InputGeneratorBuilder { devices, ..self }
    }

    /// Identifier sent to the compositor.
    pub fn name(self, name: &str) -> (r: Self)
        ensures
            r.devices_view() == self.devices_view(),
            r.name_view() == Some(name@),
    {
        InputGeneratorBuilder { name: Some(String::from_str(name)), ..self }
    }

    /// The device classes to register.
    pub fn devices(&self) -> (r: DeviceType)
        ensures
            r == self.devices_view(),
    {
        self.devices
    }

    /// The name to send, if any.
    pub fn generator_name(&self) -> (r: Option<String>)
        ensures
            match r {
                Some(n) => self.name_view() == Some(n@),
                None => self.name_view() is None,
            },
    {
        match &self.name {
            Some(n) => Some(n.clone()),
            None => None,
        }
    }
}

/// A global of the registry that an input generator needs.
#[derive(Debug, Clone, Copy, PartialEq, Eq, Structural)]
pub enum InputGlobal {
    /// `tizen_input_device_manager`.
    DeviceManager,
    /// `wl_seat`.
    Seat,
}

/// Which global an advertised interface is and the version to bind it at:
/// the device manager at the advertised version, `wl_seat` up to 7.
pub open spec fn input_global_of(interface: Seq<char>, version: u32) -> Option<(InputGlobal, u32)> {
    if interface == "tizen_input_device_manager"@ {
        Some((InputGlobal::DeviceManager, version))
    } else if interface == "wl_seat"@ {
        Some((InputGlobal::Seat, if version < 7 { version } else { 7 }))
    } else {
        None
    }
}

/// Decide whether and at which version to bind an advertised global.
pub fn input_global(interface: &str, version: u32) -> (r: Option<(InputGlobal, u32)>)
    ensures
        r == input_global_of(interface@, version),
{
    if same_text(interface, "tizen_input_device_manager") {
        Some((InputGlobal::DeviceManager, version))
    } else if same_text(interface, "wl_seat") {
        Some((InputGlobal::Seat, if version < 7 { version } else { 7 }))
    } else {
        None
    }
}

/// A generator needs at least one device class: an empty set is refused
/// as the compositor would refuse it, with `invalid_class`.
pub fn check_devices(devices: DeviceType) -> (r: Result<(), Error>)
    ensures
        r == (if devices.bits == 0 {
            Err(Error::Rejected(ProtocolError::InvalidClass))
        } else {
            Ok(())
        }),
{
    if devices.is_empty() {
        return Err(Error::Rejected(ProtocolError::InvalidClass));
    }
    Ok(())
}

impl Clone for InputGeneratorBuilder {
    /// A builder with the same device classes and name.
    fn clone(&self) -> (r: Self)
        ensures
            r.devices_view() == self.devices_view(),
            r.name_view() == self.name_view(),
    {
        let name = match &self.name {
            Some(n) => Some(n.clone()),
            None => None,
        };
        InputGeneratorBuilder { devices: self.devices, name }
    }
}

/// The error of a failed Wayland connection: the failure itself on a
/// build for Tizen; on a host build, there is no Tizen compositor to reach.
pub fn connect_error(on_target: bool, message: String) -> (r: Error)
    ensures
        r == (if on_target { Error::NotConnected(message) } else { Error::Unsupported }),
{
    if on_target {
        Error::NotConnected(message)
    } else {
        Error::Unsupported
    }
}

/// The outcome of the registry walk: the device manager is needed; where
/// it is missing, a build for Tizen reports it, and on a host build the
/// compositor is no Tizen compositor and the generator is unsupported.
pub fn check_manager(on_target: bool, has_manager: bool) -> (r: Result<(), Error>)
    ensures
        r == (if has_manager {
            Ok(())
        } else if on_target {
            Err(Error::ProtocolUnavailable)
        } else {
            Err(Error::Unsupported)
        }),
{
    if has_manager {
        Ok(())
    } else if on_target {
        Err(Error::ProtocolUnavailable)
    } else {
        Err(Error::Unsupported)
    }
}

/// Read the manager's `error` event, which acknowledges every request:
/// code 0 is success, any other code a rejection.
pub fn ack_result(code: u32) -> (r: Result<(), Error>)
    ensures
        r == (if code == 0 { Ok(()) } else { Err(Error::Rejected(protocol_error_of(code))) }),
{
    if code == 0 {
        Ok(())
    } else {
        Err(Error::Rejected(ProtocolError::from_code(code)))
    }
}

} // verus!
