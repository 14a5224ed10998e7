use tizen::input::{
    ack_result, check_devices, check_manager, clas_for, connect_error, input_global, DeviceType, Error, InputGeneratorBuilder,
    InputGlobal, KeyState, ProtocolError,
};

#[test]
fn protocol_error_codes_decode() {
    assert_eq!(ProtocolError::from_code(1), ProtocolError::NoPermission);
    assert_eq!(ProtocolError::from_code(2), ProtocolError::InvalidClass);
    assert_eq!(ProtocolError::from_code(3), ProtocolError::BlockedAlready);
    assert_eq!(ProtocolError::from_code(4), ProtocolError::NoSystemResources);
    assert_eq!(ProtocolError::from_code(5), ProtocolError::InvalidParameter);
    assert_eq!(ProtocolError::from_code(6), ProtocolError::InvalidSurface);
    assert_eq!(ProtocolError::from_code(7), ProtocolError::NoPointerAvailable);
    assert_eq!(ProtocolError::from_code(8), ProtocolError::NotAllowed);
    assert_eq!(ProtocolError::from_code(9), ProtocolError::Unknown(9));
    assert_eq!(ProtocolError::from_code(0), ProtocolError::Unknown(0));
}

#[test]
fn protocol_error_names() {
    assert_eq!(ProtocolError::NoPermission.name(), "no_permission");
    assert_eq!(ProtocolError::NotAllowed.name(), "not_allowed");
    assert_eq!(ProtocolError::Unknown(42).name(), "unknown(42)");
    assert_eq!(ProtocolError::Unknown(4294967295).name(), "unknown(4294967295)");
}

#[test]
fn error_messages() {
    assert_eq!(
        Error::Rejected(ProtocolError::InvalidClass).message(),
        "compositor rejected the request: invalid_class"
    );
    assert_eq!(
        Error::Transport("broken pipe".to_string()).message(),
        "wayland transport error: broken pipe"
    );
    assert_eq!(
        Error::NotConnected("nope".to_string()).message(),
        "wayland connect failed: nope"
    );
    assert_eq!(
        Error::ProtocolUnavailable.message(),
        "compositor does not advertise tizen_input_device_manager \u{2014} this only works on a Tizen compositor"
    );
    assert_eq!(
        Error::Unsupported.message(),
        "tizen-input not supported on this host build (no reachable Tizen compositor)"
    );
}

#[test]
fn clas_bits_follow_device_types() {
    assert_eq!(clas_for(DeviceType::pointer()), 1);
    assert_eq!(clas_for(DeviceType::keyboard()), 2);
    assert_eq!(clas_for(DeviceType::touchscreen()), 4);
    assert_eq!(clas_for(DeviceType::pointer().union(DeviceType::touchscreen())), 5);
    assert_eq!(clas_for(DeviceType::empty()), 0);
    assert_eq!(clas_for(DeviceType { bits: 0xff }), 7);
    assert_eq!(DeviceType::from_bits_truncate(0xff).bits, 7);
}

#[test]
fn key_states_on_the_wire() {
    assert_eq!(KeyState::Pressed.as_u32(), 1);
    assert_eq!(KeyState::Released.as_u32(), 0);
}

#[test]
fn builder_defaults_and_settings() {
    let b = InputGeneratorBuilder::new();
    assert_eq!(b.devices(), DeviceType::keyboard());
    assert_eq!(b.generator_name(), None);
    let b = b
        .name("hello-input")
        .device(DeviceType::keyboard().union(DeviceType::pointer()));
    assert_eq!(b.devices().bits, 3);
    assert_eq!(b.generator_name().as_deref(), Some("hello-input"));
}

#[test]
fn empty_device_set_is_refused() {
    assert_eq!(
        check_devices(DeviceType::empty()),
        Err(Error::Rejected(ProtocolError::InvalidClass))
    );
    assert_eq!(check_devices(DeviceType::pointer()), Ok(()));
}

#[test]
fn acknowledgements_are_read() {
    assert_eq!(ack_result(0), Ok(()));
    assert_eq!(ack_result(1), Err(Error::Rejected(ProtocolError::NoPermission)));
    assert_eq!(ack_result(77), Err(Error::Rejected(ProtocolError::Unknown(77))));
}

#[test]
fn registry_globals() {
    assert_eq!(input_global("tizen_input_device_manager", 5), Some((InputGlobal::DeviceManager, 5)));
    assert_eq!(input_global("wl_seat", 8), Some((InputGlobal::Seat, 7)));
    assert_eq!(input_global("wl_seat", 5), Some((InputGlobal::Seat, 5)));
    assert_eq!(input_global("wl_output", 5), None);
}

#[test]
fn off_target_builds_are_unsupported() {
    assert_eq!(connect_error(false, "no display".to_string()), Error::Unsupported);
    assert_eq!(
        connect_error(true, "no display".to_string()),
        Error::NotConnected("no display".to_string())
    );
    assert_eq!(check_manager(false, false), Err(Error::Unsupported));
    assert_eq!(check_manager(true, false), Err(Error::ProtocolUnavailable));
    assert_eq!(check_manager(false, true), Ok(()));
    assert_eq!(check_manager(true, true), Ok(()));
}

#[test]
fn builder_clone_keeps_settings() {
    let b = InputGeneratorBuilder::new().name("gen").device(DeviceType::pointer());
    let c = b.clone();
    assert_eq!(c.devices(), DeviceType::pointer());
    assert_eq!(c.generator_name().as_deref(), Some("gen"));
}
