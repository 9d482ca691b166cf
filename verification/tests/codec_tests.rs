use throttle_link::codec::{
    decode_command, decode_result, encode_command, encode_result, pad_report, DecodeError,
};
use throttle_link::protocol::{Command, DeviceError, DeviceResult};

fn roundtrip(c: Command) {
    let encoded = encode_command(&c);
    assert_eq!(decode_command(&encoded), Ok(c));
    // The same value decodes out of a zero-padded report buffer.
    let padded = pad_report(encoded, 32);
    assert_eq!(padded.len(), 32);
    assert_eq!(decode_command(&padded), Ok(c));
}

#[test]
fn command_roundtrip_all_variants() {
    roundtrip(Command::Ping(0));
    roundtrip(Command::Ping(42));
    roundtrip(Command::Ping(u32::MAX));
    roundtrip(Command::Pong(7));
    roundtrip(Command::Throttle(25.0f32.to_bits()));
    roundtrip(Command::Throttle(f32::NAN.to_bits()));
    roundtrip(Command::AutoPilot(true));
    roundtrip(Command::AutoPilot(false));
    roundtrip(Command::Nop);
}

fn roundtrip_result(r: DeviceResult) {
    let encoded = encode_result(&r);
    assert_eq!(decode_result(&encoded), Ok(r));
    let padded = pad_report(encoded, 32);
    assert_eq!(decode_result(&padded), Ok(r));
}

#[test]
fn result_roundtrip_all_variants() {
    roundtrip_result(DeviceResult::Accepted(Command::Ping(1)));
    roundtrip_result(DeviceResult::Accepted(Command::Pong(u32::MAX)));
    roundtrip_result(DeviceResult::Accepted(Command::Throttle(100.0f32.to_bits())));
    roundtrip_result(DeviceResult::Accepted(Command::AutoPilot(true)));
    roundtrip_result(DeviceResult::Accepted(Command::Nop));
    roundtrip_result(DeviceResult::Rejected(DeviceError::NotSupported));
    roundtrip_result(DeviceResult::Rejected(DeviceError::UnknownCommand));
}

#[test]
fn encoding_is_tag_then_little_endian_payload() {
    assert_eq!(encode_command(&Command::Ping(0x0102_0304)), vec![0, 4, 3, 2, 1]);
    assert_eq!(encode_command(&Command::Pong(1)), vec![1, 1, 0, 0, 0]);
    assert_eq!(
        encode_command(&Command::Throttle(50.0f32.to_bits())),
        vec![2, 0x00, 0x00, 0x48, 0x42]
    );
    assert_eq!(encode_command(&Command::AutoPilot(true)), vec![3, 1]);
    assert_eq!(encode_command(&Command::AutoPilot(false)), vec![3, 0]);
    assert_eq!(encode_command(&Command::Nop), vec![4]);
    assert_eq!(
        encode_result(&DeviceResult::Accepted(Command::Nop)),
        vec![0, 4]
    );
    assert_eq!(
        encode_result(&DeviceResult::Rejected(DeviceError::NotSupported)),
        vec![1, 0]
    );
    assert_eq!(
        encode_result(&DeviceResult::Rejected(DeviceError::UnknownCommand)),
        vec![1, 1]
    );
}

#[test]
fn unknown_discriminant_is_rejected_not_a_crash() {
    // A discriminant byte out of the known variant range, in a full report.
    let mut report = [0u8; 32];
    report[0] = 5;
    assert_eq!(decode_command(&report), Err(DecodeError::UnknownDiscriminant));
    report[0] = 0xff;
    assert_eq!(decode_command(&report), Err(DecodeError::UnknownDiscriminant));
    report[0] = 2;
    assert_eq!(decode_result(&report), Err(DecodeError::UnknownDiscriminant));
}

#[test]
fn truncated_payload_is_rejected() {
    assert_eq!(decode_command(&[]), Err(DecodeError::Truncated));
    assert_eq!(decode_command(&[0, 1, 2]), Err(DecodeError::Truncated));
    assert_eq!(decode_command(&[2, 1, 2, 3]), Err(DecodeError::Truncated));
    assert_eq!(decode_command(&[3]), Err(DecodeError::Truncated));
    assert_eq!(decode_result(&[]), Err(DecodeError::Truncated));
    assert_eq!(decode_result(&[0]), Err(DecodeError::Truncated));
    assert_eq!(decode_result(&[0, 1, 0, 0]), Err(DecodeError::Truncated));
    assert_eq!(decode_result(&[1]), Err(DecodeError::Truncated));
}

#[test]
fn non_canonical_payload_is_rejected() {
    // A toggle payload byte other than 0 or 1 encodes no value.
    assert_eq!(decode_command(&[3, 2]), Err(DecodeError::InvalidPayload));
    assert_eq!(decode_result(&[1, 9]), Err(DecodeError::InvalidPayload));
    assert_eq!(decode_result(&[0, 3, 7]), Err(DecodeError::InvalidPayload));
}

#[test]
fn decoding_ignores_trailing_bytes() {
    // Trailing bytes after a complete encoding do not disturb it.
    let mut buf = vec![0u8, 42, 0, 0, 0];
    buf.extend([0xaa; 27]);
    assert_eq!(decode_command(&buf), Ok(Command::Ping(42)));
}
