//! Binary wire format for `Command` and `DeviceResult`.
//!
//! Each tagged union is encoded as a one-byte discriminant followed by its
//! payload bytes in declaration order; 32-bit payloads are little-endian and
//! fixed width.  The encoding is canonical: every value has exactly one
//! encoding, and decoding tolerates arbitrary trailing bytes so that a value
//! can travel inside a larger zero-padded report buffer.  Host and device
//! builds of this crate agree on the format byte for byte by construction.

use vstd::prelude::*;

use crate::protocol::{Command, DeviceError, DeviceResult};

verus! {

/// Why a buffer failed to decode.
#[derive(Clone, Copy, Debug, PartialEq, Eq, Structural)]
pub enum DecodeError {
    /// The discriminant byte is outside the known variant range.
    UnknownDiscriminant,
    /// The buffer ends before the payload is complete.
    Truncated,
    /// The payload bytes are not a canonical encoding of any value.
    InvalidPayload,
}

/// The four little-endian bytes of a 32-bit value.
pub open spec fn le_bytes(v: u32) -> Seq<u8> {
    seq![
        (v & 0xff) as u8,
        ((v >> 8) & 0xff) as u8,
        ((v >> 16) & 0xff) as u8,
        ((v >> 24) & 0xff) as u8,
    ]
}

/// The 32-bit value read from four little-endian bytes.
pub open spec fn u32_of_le(b: Seq<u8>) -> u32
    recommends
        b.len() == 4,
{
    (b[0] as u32) | ((b[1] as u32) << 8) | ((b[2] as u32) << 16) | ((b[3] as u32) << 24)
}

/// The canonical encoding of a command: discriminant byte, then payload.
pub open spec fn spec_encode_command(c: Command) -> Seq<u8> {
    match c {
        Command::Ping(v) => seq![0u8] + le_bytes(v),
        Command::Pong(v) => seq![1u8] + le_bytes(v),
        Command::Throttle(bits) => seq![2u8] + le_bytes(bits),
        Command::AutoPilot(b) => seq![3u8, if b { 1u8 } else { 0u8 }],
        Command::Nop => seq![4u8],
    }
}

/// The canonical encoding of a device result: discriminant byte, then either
/// the encoded command or the error's discriminant byte.
pub open spec fn spec_encode_result(r: DeviceResult) -> Seq<u8> {
    match r {
        DeviceResult::Accepted(c) => seq![0u8] + spec_encode_command(c),
        DeviceResult::Rejected(DeviceError::NotSupported) => seq![1u8, 0u8],
        DeviceResult::Rejected(DeviceError::UnknownCommand) => seq![1u8, 1u8],
    }
}

/// What decoding a buffer as a command yields: the unique command whose
/// encoding is a prefix of the buffer, or the error that rules one out.
pub open spec fn spec_decode_command(b: Seq<u8>) -> Result<Command, DecodeError> {
    if b.len() < 1 {
        Result::Err(DecodeError::Truncated)
    } else if b[0] == 0u8 {
        if b.len() < 5 {
            Result::Err(DecodeError::Truncated)
        } else {
            Result::Ok(Command::Ping(u32_of_le(b.subrange(1, 5))))
        }
    } else if b[0] == 1u8 {
        if b.len() < 5 {
            Result::Err(DecodeError::Truncated)
        } else {
            Result::Ok(Command::Pong(u32_of_le(b.subrange(1, 5))))
        }
    } else if b[0] == 2u8 {
        if b.len() < 5 {
            Result::Err(DecodeError::Truncated)
        } else {
            Result::Ok(Command::Throttle(u32_of_le(b.subrange(1, 5))))
        }
    } else if b[0] == 3u8 {
        if b.len() < 2 {
            Result::Err(DecodeError::Truncated)
        } else if b[1] == 0u8 {
            Result::Ok(Command::AutoPilot(false))
        } else if b[1] == 1u8 {
            Result::Ok(Command::AutoPilot(true))
        } else {
            Result::Err(DecodeError::InvalidPayload)
        }
    } else if b[0] == 4u8 {
        Result::Ok(Command::Nop)
    } else {
        Result::Err(DecodeError::UnknownDiscriminant)
    }
}

/// What decoding a buffer as a device result yields.
pub open spec fn spec_decode_result(b: Seq<u8>) -> Result<DeviceResult, DecodeError> {
    if b.len() < 1 {
        Result::Err(DecodeError::Truncated)
    } else if b[0] == 0u8 {
        match spec_decode_command(b.skip(1)) {
            Result::Ok(c) => Result::Ok(DeviceResult::Accepted(c)),
            Result::Err(e) => Result::Err(e),
        }
    } else if b[0] == 1u8 {
        if b.len() < 2 {
            Result::Err(DecodeError::Truncated)
        } else if b[1] == 0u8 {
            Result::Ok(DeviceResult::Rejected(DeviceError::NotSupported))
        } else if b[1] == 1u8 {
            Result::Ok(DeviceResult::Rejected(DeviceError::UnknownCommand))
        } else {
            Result::Err(DecodeError::InvalidPayload)
        }
    } else {
        Result::Err(DecodeError::UnknownDiscriminant)
    }
}

/// `s` followed by zeros up to length `n`.
pub open spec fn zero_padded(s: Seq<u8>, n: nat) -> Seq<u8>
    recommends
        s.len() <= n,
{
    s + Seq::new((n - s.len()) as nat, |i: int| 0u8)
}

/// Append the four little-endian bytes of `v` to `out`.
fn push_le(out: &mut Vec<u8>, v: u32)
    ensures
        final(out)@ == old(out)@ + le_bytes(v),
{
    out.push((v & 0xff) as u8);
    out.push(((v >> 8) & 0xff) as u8);
    out.push(((v >> 16) & 0xff) as u8);
    out.push(((v >> 24) & 0xff) as u8);
    assert(out@ =~= old(out)@ + le_bytes(v));
}

/// Read the 32-bit little-endian value at offset `off`.
fn read_u32_le(data: &[u8], off: usize) -> (r: u32)
    requires
        off + 4 <= data@.len(),
    ensures
        r == u32_of_le(data@.subrange(off as int, off + 4)),
{
    let b0 = data[off] as u32;
    let b1 = data[off + 1] as u32;
    let b2 = data[off + 2] as u32;
    let b3 = data[off + 3] as u32;
    let r = b0 | (b1 << 8) | (b2 << 16) | (b3 << 24);
    proof {
        let s = data@.subrange(off as int, off + 4);
        assert(s[0] == data@[off as int]);
        assert(s[1] == data@[off + 1]);
        assert(s[2] == data@[off + 2]);
        assert(s[3] == data@[off + 3]);
    }
    r
}

/// Encode a command into its exact canonical bytes (at most 5 of them).
/// Encoding never fails: every constructible command has an encoding.
pub fn encode_command(c: &Command) -> (out: Vec<u8>)
    ensures
        out@ == spec_encode_command(*c),
        out@.len() <= 5,
{
    let mut out: Vec<u8> = Vec::new();
    match c {
        Command::Ping(v) => {
            out.push(0u8);
            push_le(&mut out, *v);
        },
        Command::Pong(v) => {
            out.push(1u8);
            push_le(&mut out, *v);
        },
        Command::Throttle(bits) => {
            out.push(2u8);
            push_le(&mut out, *bits);
        },
        Command::AutoPilot(b) => {
            out.push(3u8);
            out.push(if *b { 1u8 } else { 0u8 });
        },
        Command::Nop => {
            out.push(4u8);
        },
    }
    assert(out@ =~= spec_encode_command(*c));
    out
}

/// Encode a device result into its exact canonical bytes (at most 6).
/// Encoding never fails: every constructible result has an encoding.
pub fn encode_result(r: &DeviceResult) -> (out: Vec<u8>)
    ensures
        out@ == spec_encode_result(*r),
        out@.len() <= 6,
{
    let mut out: Vec<u8> = Vec::new();
    match r {
        DeviceResult::Accepted(c) => {
            out.push(0u8);
            let body = encode_command(c);
            let mut i: usize = 0;
            while i < body.len()
                invariant
                    i <= body@.len(),
                    body@ == spec_encode_command(*c),
                    out@ == seq![0u8] + body@.subrange(0, i as int),
                decreases body@.len() - i,
            {
                out.push(body[i]);
                i = i + 1;
                assert(out@ =~= seq![0u8] + body@.subrange(0, i as int));
            }
            assert(body@.subrange(0, body@.len() as int) =~= body@);
        },
        DeviceResult::Rejected(DeviceError::NotSupported) => {
            out.push(1u8);
            out.push(0u8);
        },
        DeviceResult::Rejected(DeviceError::UnknownCommand) => {
            out.push(1u8);
            out.push(1u8);
        },
    }
    assert(out@ =~= spec_encode_result(*r));
    out
}

/// Extend an encoded value with zeros up to the report size `n`.
pub fn pad_report(v: Vec<u8>, n: usize) -> (out: Vec<u8>)
    requires
        v@.len() <= n,
    ensures
        out@ == zero_padded(v@, n as nat),
        out@.len() == n,
{
    let ghost orig = v@;
    let mut out = v;
    while out.len() < n
        invariant
            orig.len() <= out@.len() <= n,
            out@.subrange(0, orig.len() as int) == orig,
            forall|i: int| orig.len() <= i < out@.len() ==> out@[i] == 0u8,
        decreases n - out@.len(),
    {
        out.push(0u8);
        assert(out@.subrange(0, orig.len() as int) =~= orig);
    }
    assert(out@ =~= zero_padded(orig, n as nat));
    out
}

/// Decode a buffer as a command.  Succeeds exactly when the discriminant byte
/// is in the known range and the payload is complete and canonical; trailing
/// bytes (report padding) are ignored.
pub fn decode_command(data: &[u8]) -> (r: Result<Command, DecodeError>)
    ensures
        r == spec_decode_command(data@),
{
    if data.len() < 1 {
        return Result::Err(DecodeError::Truncated);
    }
    let tag = data[0];
    if tag <= 2 {
        if data.len() < 5 {
            return Result::Err(DecodeError::Truncated);
        }
        let v = read_u32_le(data, 1);
        if tag == 0 {
            Result::Ok(Command::Ping(v))
        } else if tag == 1 {
            Result::Ok(Command::Pong(v))
        } else {
            Result::Ok(Command::Throttle(v))
        }
    } else if tag == 3 {
        if data.len() < 2 {
            return Result::Err(DecodeError::Truncated);
        }
        let payload = data[1];
        if payload == 0 {
            Result::Ok(Command::AutoPilot(false))
        } else if payload == 1 {
            Result::Ok(Command::AutoPilot(true))
        } else {
            Result::Err(DecodeError::InvalidPayload)
        }
    } else if tag == 4 {
        Result::Ok(Command::Nop)
    } else {
        Result::Err(DecodeError::UnknownDiscriminant)
    }
}

/// Decode a buffer as a device result; trailing bytes are ignored.
pub fn decode_result(data: &[u8]) -> (r: Result<DeviceResult, DecodeError>)
    ensures
        r == spec_decode_result(data@),
{
    if data.len() < 1 {
        return Result::Err(DecodeError::Truncated);
    }
    let tag = data[0];
    if tag == 0 {
        if data.len() < 2 {
            proof {
                assert(data@.skip(1).len() < 1);
            }
            return Result::Err(DecodeError::Truncated);
        }
        let inner_tag = data[1];
        proof {
            assert(data@.skip(1)[0] == data@[1]);
        }
        if inner_tag <= 2 {
            if data.len() < 6 {
                return Result::Err(DecodeError::Truncated);
            }
            let v = read_u32_le(data, 2);
            proof {
                assert(data@.skip(1).subrange(1, 5) =~= data@.subrange(2, 6));
            }
            if inner_tag == 0 {
                Result::Ok(DeviceResult::Accepted(Command::Ping(v)))
            } else if inner_tag == 1 {
                Result::Ok(DeviceResult::Accepted(Command::Pong(v)))
            } else {
                Result::Ok(DeviceResult::Accepted(Command::Throttle(v)))
            }
        } else if inner_tag == 3 {
            if data.len() < 3 {
                return Result::Err(DecodeError::Truncated);
            }
            let payload = data[2];
            proof {
                assert(data@.skip(1)[1] == data@[2]);
            }
            if payload == 0 {
                Result::Ok(DeviceResult::Accepted(Command::AutoPilot(false)))
            } else if payload == 1 {
                Result::Ok(DeviceResult::Accepted(Command::AutoPilot(true)))
            } else {
                Result::Err(DecodeError::InvalidPayload)
            }
        } else if inner_tag == 4 {
            Result::Ok(DeviceResult::Accepted(Command::Nop))
        } else {
            Result::Err(DecodeError::UnknownDiscriminant)
        }
    } else if tag == 1 {
        if data.len() < 2 {
            return Result::Err(DecodeError::Truncated);
        }
        let payload = data[1];
        if payload == 0 {
            Result::Ok(DeviceResult::Rejected(DeviceError::NotSupported))
        } else if payload == 1 {
            Result::Ok(DeviceResult::Rejected(DeviceError::UnknownCommand))
        } else {
            Result::Err(DecodeError::InvalidPayload)
        }
    } else {
        Result::Err(DecodeError::UnknownDiscriminant)
    }
}

/// Reading back the four little-endian bytes of a value yields the value.
pub proof fn lemma_le_roundtrip(v: u32)
    ensures
        u32_of_le(le_bytes(v)) == v,
{
    assert((((v & 0xff) as u8) as u32) | (((((v >> 8) & 0xff) as u8) as u32) << 8) | (((((v
        >> 16) & 0xff) as u8) as u32) << 16) | (((((v >> 24) & 0xff) as u8) as u32) << 24)
        == v) by (bit_vector);
}

/// Round-trip law for commands: decoding the canonical encoding of any
/// constructible command — with any trailing bytes, such as report padding —
/// yields that command back.
pub proof fn lemma_command_roundtrip(c: Command, pad: Seq<u8>)
    ensures
        spec_decode_command(spec_encode_command(c) + pad) == Result::<
            Command,
            DecodeError,
        >::Ok(c),
{
    let b = spec_encode_command(c) + pad;
    match c {
        Command::Ping(v) => {
            assert(b.subrange(1, 5) =~= le_bytes(v));
            lemma_le_roundtrip(v);
        },
        Command::Pong(v) => {
            assert(b.subrange(1, 5) =~= le_bytes(v));
            lemma_le_roundtrip(v);
        },
        Command::Throttle(bits) => {
            assert(b.subrange(1, 5) =~= le_bytes(bits));
            lemma_le_roundtrip(bits);
        },
        Command::AutoPilot(_) => {
        },
        Command::Nop => {
        },
    }
}

/// Canonicity: two distinct commands never share an encoding, so every
/// constructible command has exactly one canonical binary form.
pub proof fn lemma_encoding_injective(a: Command, b: Command)
    ensures
        spec_encode_command(a) == spec_encode_command(b) ==> a == b,
{
    if spec_encode_command(a) == spec_encode_command(b) {
        lemma_command_roundtrip(a, Seq::<u8>::empty());
        lemma_command_roundtrip(b, Seq::<u8>::empty());
    }
}

/// Round-trip law for device results: decoding the canonical encoding of any
/// constructible result — with any trailing bytes — yields that result back.
pub proof fn lemma_result_roundtrip(r: DeviceResult, pad: Seq<u8>)
    ensures
        spec_decode_result(spec_encode_result(r) + pad) == Result::<
            DeviceResult,
            DecodeError,
        >::Ok(r),
{
    let b = spec_encode_result(r) + pad;
    match r {
        DeviceResult::Accepted(c) => {
            assert(b.skip(1) =~= spec_encode_command(c) + pad);
            lemma_command_roundtrip(c, pad);
        },
        DeviceResult::Rejected(_) => {
        },
    }
}

} // verus!
