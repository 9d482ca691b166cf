use throttle_link::codec::encode_result;
use throttle_link::device::Dispatcher;
use throttle_link::host::{Device, HostError, EXCHANGE_BUFFER_SIZE};
use throttle_link::protocol::{Command, DeviceError, DeviceResult};

#[test]
fn command_before_open_fails_with_not_open() {
    // Not a transport error: the handle simply has not been opened.
    let device = Device::new(0xc0aa, 0xcafe);
    assert!(!device.is_open());
    let outcome = device.prepare_command(&Command::Ping(1));
    assert_eq!(outcome.unwrap_err(), HostError::NotOpen);
}

#[test]
fn open_then_close_gates_commands() {
    let mut device = Device::new(0xc0aa, 0xcafe);
    assert_eq!(device.vid(), 0xc0aa);
    assert_eq!(device.pid(), 0xcafe);
    device.note_opened();
    assert!(device.is_open());
    assert!(device.prepare_command(&Command::Nop).is_ok());
    device.note_closed();
    assert_eq!(
        device.prepare_command(&Command::Nop).unwrap_err(),
        HostError::NotOpen
    );
}

#[test]
fn prepared_buffer_is_fixed_size_and_zero_padded() {
    let mut device = Device::new(0xc0aa, 0xcafe);
    device.note_opened();
    let buf = device.prepare_command(&Command::Ping(0x0102_0304)).unwrap();
    assert_eq!(buf.len(), EXCHANGE_BUFFER_SIZE);
    assert_eq!(&buf[..5], &[0, 4, 3, 2, 1]);
    assert!(buf[5..].iter().all(|&b| b == 0));
}

#[test]
fn rejected_reply_surfaces_as_protocol_error() {
    let device = Device::new(0xc0aa, 0xcafe);
    let reply = encode_result(&DeviceResult::Rejected(DeviceError::UnknownCommand));
    assert_eq!(
        device.parse_reply(&reply),
        Err(HostError::Protocol(DeviceError::UnknownCommand))
    );
    let reply = encode_result(&DeviceResult::Rejected(DeviceError::NotSupported));
    assert_eq!(
        device.parse_reply(&reply),
        Err(HostError::Protocol(DeviceError::NotSupported))
    );
}

#[test]
fn undecodable_reply_surfaces_as_invalid_reply() {
    let device = Device::new(0xc0aa, 0xcafe);
    assert_eq!(device.parse_reply(&[0xee; 64]), Err(HostError::InvalidReply));
    assert_eq!(device.parse_reply(&[]), Err(HostError::InvalidReply));
}

#[test]
fn end_to_end_throttle_exchange() {
    // Host opens the device and sends a 25 percent throttle; the device sets
    // its register to a quarter of full scale and acknowledges; the host call
    // comes back with the empty acknowledgement.
    let mut host = Device::new(0xc0aa, 0xcafe);
    host.note_opened();
    let outbound = host
        .prepare_command(&Command::Throttle(25.0f32.to_bits()))
        .unwrap();

    let mut device = Dispatcher::new();
    device.handle_report(&outbound);
    let inbound = device.respond_next().expect("one exchange was pending");
    assert_eq!(device.register_value(), 0x2000);

    assert_eq!(host.parse_reply(&inbound), Ok(Command::Nop));
}

#[test]
fn end_to_end_ping_sequence_keeps_order() {
    let mut host = Device::new(0xc0aa, 0xcafe);
    host.note_opened();
    let mut device = Dispatcher::new();
    for token in [1u32, 2] {
        let outbound = host.prepare_command(&Command::Ping(token)).unwrap();
        device.handle_report(&outbound);
    }
    for token in [1u32, 2] {
        let inbound = device.respond_next().expect("a reply was pending");
        assert_eq!(host.parse_reply(&inbound), Ok(Command::Pong(token)));
    }
}

#[test]
fn result_conversions_are_mutually_inverse() {
    let values = [
        DeviceResult::Accepted(Command::Ping(3)),
        DeviceResult::Accepted(Command::Nop),
        DeviceResult::Rejected(DeviceError::NotSupported),
        DeviceResult::Rejected(DeviceError::UnknownCommand),
    ];
    for v in values {
        assert_eq!(DeviceResult::from_result(v.into_result()), v);
    }
    let results: [Result<Command, DeviceError>; 2] = [
        Ok(Command::Pong(9)),
        Err(DeviceError::UnknownCommand),
    ];
    for r in results {
        assert_eq!(DeviceResult::from_result(r).into_result(), r);
    }
}

#[test]
fn from_impls_convert_both_ways() {
    let wrapped = DeviceResult::from(Ok(Command::Ping(1)));
    assert_eq!(wrapped, DeviceResult::Accepted(Command::Ping(1)));
    let unwrapped: Result<Command, DeviceError> =
        DeviceResult::Rejected(DeviceError::NotSupported).into();
    assert_eq!(unwrapped, Err(DeviceError::NotSupported));
    let rewrapped: DeviceResult = unwrapped.into();
    assert_eq!(rewrapped, DeviceResult::Rejected(DeviceError::NotSupported));
}
