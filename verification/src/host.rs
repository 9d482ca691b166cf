//! Host-side transport client: the protocol half of the synchronous
//! request/response call.
//!
//! The surrounding application owns the actual USB handle and transfers.  One
//! call is: encode the command into a fixed-size zero-padded buffer
//! (`prepare_command`), write it to the OUT endpoint, read the reply from the
//! IN endpoint with the same timeout, and interpret the reply buffer
//! (`parse_reply`).  The client itself keeps no state across calls beyond
//! whether the device handle has been opened; callers serialize concurrent
//! calls to one device themselves.

use vstd::prelude::*;

use crate::codec::{
    decode_result, encode_command, pad_report, spec_decode_result, spec_encode_command,
    spec_encode_result, zero_padded,
};
use crate::device::{received_result, reply_for};
use crate::protocol::{Command, DeviceError, DeviceResult};

verus! {

/// Size in bytes of the transfer buffer for one exchange in either direction.
pub const EXCHANGE_BUFFER_SIZE: usize = 64;

/// How a host-side call fails.  Transport failures are kept distinct from
/// protocol failures: a reply that was transported successfully but reports a
/// device error is `Protocol`, never `Transport`.
#[derive(Clone, Copy, Debug, PartialEq, Eq, Structural)]
pub enum HostError {
    /// The call was made before the device handle was opened.
    NotOpen,
    /// A transport-level failure: write timeout, read timeout, or an I/O
    /// error on the bus.
    Transport,
    /// A successfully transported exchange that the device answered with an
    /// error.
    Protocol(DeviceError),
    /// The reply buffer was transported but does not decode to any result.
    InvalidReply,
}

/// What interpreting a transported reply buffer yields: the command payload
/// of an accepted reply, the protocol error of a rejected one, or the
/// invalid-reply error when the buffer does not decode.
pub open spec fn reply_outcome(b: Seq<u8>) -> Result<Command, HostError> {
    match spec_decode_result(b) {
        Result::Ok(DeviceResult::Accepted(c)) => Result::Ok(c),
        Result::Ok(DeviceResult::Rejected(e)) => Result::Err(HostError::Protocol(e)),
        Result::Err(_) => Result::Err(HostError::InvalidReply),
    }
}

/// A handle on one peripheral, identified by its fixed vendor/product pair.
/// It starts unopened; the surrounding I/O layer records here whether the
/// matching USB handle is currently open.
pub struct Device {
    vid: u16,
    pid: u16,
    opened: bool,
}

impl Device {
    /// The vendor identifier this handle matches.
    pub closed spec fn spec_vid(&self) -> u16 {
        self.vid
    }

    /// The product identifier this handle matches.
    pub closed spec fn spec_pid(&self) -> u16 {
        self.pid
    }

    /// Whether the underlying device handle has been opened.
    pub closed spec fn spec_open(&self) -> bool {
        self.opened
    }

    /// A fresh, unopened handle for the given vendor/product pair.
    pub fn new(vid: u16, pid: u16) -> (d: Device)
        ensures
            d.spec_vid() == vid,
            d.spec_pid() == pid,
            !d.spec_open(),
    {
        Device { vid, pid, opened: false }
    }

    /// The vendor identifier, for the I/O layer to open by.
    pub fn vid(&self) -> (r: u16)
        ensures
            r == self.spec_vid(),
    {
        self.vid
    }

    /// The product identifier, for the I/O layer to open by.
    pub fn pid(&self) -> (r: u16)
        ensures
            r == self.spec_pid(),
    {
        self.pid
    }

    /// Whether the underlying device handle has been opened.
    pub fn is_open(&self) -> (r: bool)
        ensures
            r == self.spec_open(),
    {
        self.opened
    }

    /// Record that the I/O layer opened the matching USB handle.  A reopen
    /// after a failure is a new session, not a protocol-level retry.
    pub fn note_opened(&mut self)
        ensures
            final(self).spec_open(),
            final(self).spec_vid() == old(self).spec_vid(),
            final(self).spec_pid() == old(self).spec_pid(),
    {
        self.opened = true;
    }

    /// Record that the handle was closed or lost.
    pub fn note_closed(&mut self)
        ensures
            !final(self).spec_open(),
            final(self).spec_vid() == old(self).spec_vid(),
            final(self).spec_pid() == old(self).spec_pid(),
    {
        self.opened = false;
    }

    /// First half of a call: encode the command into the fixed-size transfer
    /// buffer, zero-padding the unused bytes.  Fails with the not-open error
    /// — and only with it — exactly when the handle has not been opened;
    /// encoding itself never fails.
    pub fn prepare_command(&self, command: &Command) -> (r: Result<Vec<u8>, HostError>)
        ensures
            match r {
                Result::Ok(buf) => self.spec_open() && buf@ == zero_padded(
                    spec_encode_command(*command),
                    EXCHANGE_BUFFER_SIZE as nat,
                ),
                Result::Err(e) => !self.spec_open() && e == HostError::NotOpen,
            },
    {
        if !self.opened {
            return Result::Err(HostError::NotOpen);
        }
        let encoded = encode_command(command);
        Result::Ok(pad_report(encoded, EXCHANGE_BUFFER_SIZE))
    }

    /// Second half of a call: interpret the transported reply buffer.  An
    /// accepted reply yields its command payload; a rejected one fails with
    /// the protocol error it carries; a buffer that does not decode fails
    /// with the invalid-reply error.
    pub fn parse_reply(&self, data: &[u8]) -> (r: Result<Command, HostError>)
        ensures
            r == reply_outcome(data@),
    {
        match decode_result(data) {
            Result::Ok(DeviceResult::Accepted(c)) => Result::Ok(c),
            Result::Ok(DeviceResult::Rejected(e)) => Result::Err(HostError::Protocol(e)),
            Result::Err(_) => Result::Err(HostError::InvalidReply),
        }
    }
}

/// End-to-end exchange law.  For any command: the buffer the host prepares
/// decodes on the device to exactly that command; and the device's padded
/// reply report, parsed on the host, yields the reply table's answer — the
/// command payload when the device accepted, the protocol error when it
/// rejected.  Transport aside, a round trip is lossless.
pub proof fn lemma_exchange_roundtrip(c: Command)
    ensures
        ({
            let outbound = zero_padded(spec_encode_command(c), EXCHANGE_BUFFER_SIZE as nat);
            let reply = reply_for(received_result(outbound));
            let inbound = zero_padded(
                spec_encode_result(reply),
                crate::device::REPORT_SIZE as nat,
            );
            &&& received_result(outbound) == DeviceResult::Accepted(c)
            &&& reply_outcome(inbound) == match reply {
                DeviceResult::Accepted(rc) => Result::<Command, HostError>::Ok(rc),
                DeviceResult::Rejected(e) => Result::<Command, HostError>::Err(
                    HostError::Protocol(e),
                ),
            }
        }),
{
    let outbound = zero_padded(spec_encode_command(c), EXCHANGE_BUFFER_SIZE as nat);
    let pad_out = outbound.skip(spec_encode_command(c).len() as int);
    assert(outbound =~= spec_encode_command(c) + pad_out);
    crate::codec::lemma_command_roundtrip(c, pad_out);
    let reply = reply_for(received_result(outbound));
    let inbound = zero_padded(spec_encode_result(reply), crate::device::REPORT_SIZE as nat);
    let pad_in = inbound.skip(spec_encode_result(reply).len() as int);
    assert(inbound =~= spec_encode_result(reply) + pad_in);
    crate::codec::lemma_result_roundtrip(reply, pad_in);
}

} // verus!
