//! Device-side dispatch: the decisions of the embedded runtime's steady
//! state, turning each inbound host report into a reply report.
//!
//! Two cooperative tasks share the work.  The receiver task decodes each
//! inbound report and enqueues the outcome on a bounded internal queue
//! without ever blocking the transport (a full queue silently drops the
//! item).  The responder task dequeues one item at a time, computes the reply
//! by a fixed table, updates the actuator register when the command asks for
//! it, and encodes the reply into the next outbound report.  Each task's step
//! between suspension points is a function here; the surrounding embedded
//! runtime only awaits transfers and queue availability between steps, and on
//! a failed reply transmission restarts the hardware outright rather than
//! attempting in-place recovery.

use vstd::prelude::*;

use crate::codec::{
    encode_result, pad_report, spec_decode_command, spec_encode_result, zero_padded,
};
use crate::mapping::{map_throttle, register_for};
use crate::protocol::{Command, DeviceError, DeviceResult};

verus! {

/// Capacity of the internal queue between the receiver and the responder.
pub const QUEUE_CAPACITY: usize = 10;

/// Size in bytes of one fixed HID report buffer.
pub const REPORT_SIZE: usize = 32;

/// What the receiver enqueues for an inbound report: the decoded command, or
/// the unknown-command error when the buffer does not decode — never a crash.
pub open spec fn received_result(b: Seq<u8>) -> DeviceResult {
    match spec_decode_command(b) {
        Result::Ok(c) => DeviceResult::Accepted(c),
        Result::Err(_) => DeviceResult::Rejected(DeviceError::UnknownCommand),
    }
}

/// Bounded enqueue: appends at the back when there is room, and drops the
/// item otherwise.
pub open spec fn push_bounded(q: Seq<DeviceResult>, r: DeviceResult) -> Seq<DeviceResult> {
    if q.len() < QUEUE_CAPACITY {
        q.push(r)
    } else {
        q
    }
}

/// The reply the responder computes for one dequeued item, by the table:
/// a probe is answered with its echo, a throttle or reserved command with the
/// empty acknowledgement, and a recorded error is echoed back unchanged.
pub open spec fn reply_for(r: DeviceResult) -> DeviceResult {
    match r {
        DeviceResult::Accepted(Command::Ping(v)) => DeviceResult::Accepted(Command::Pong(v)),
        DeviceResult::Accepted(Command::Pong(v)) => DeviceResult::Accepted(Command::Ping(v)),
        DeviceResult::Accepted(Command::Throttle(_)) => DeviceResult::Accepted(Command::Nop),
        DeviceResult::Accepted(Command::AutoPilot(_)) => DeviceResult::Accepted(Command::Nop),
        DeviceResult::Accepted(Command::Nop) => DeviceResult::Accepted(Command::Nop),
        DeviceResult::Rejected(e) => DeviceResult::Rejected(e),
    }
}

/// The actuator register after the responder handles one item: a throttle
/// command sets it through the actuator mapping, everything else leaves it.
pub open spec fn register_after(r: DeviceResult, reg: u16) -> u16 {
    match r {
        DeviceResult::Accepted(Command::Throttle(bits)) => register_for(bits),
        _ => reg,
    }
}

/// Bounded FIFO queue of pending exchanges between the receiver and the
/// responder task.  Enqueueing on a full queue drops the item rather than
/// blocking; dequeueing preserves arrival order.
pub struct CommandQueue {
    items: Vec<DeviceResult>,
}

impl View for CommandQueue {
    type V = Seq<DeviceResult>;

    closed spec fn view(&self) -> Seq<DeviceResult> {
        self.items@
    }
}

impl CommandQueue {
    /// The queue never holds more than its capacity.
    pub open spec fn wf(&self) -> bool {
        self@.len() <= QUEUE_CAPACITY
    }

    /// A fresh, empty queue.
    pub fn new() -> (q: CommandQueue)
        ensures
            q.wf(),
            q@ == Seq::<DeviceResult>::empty(),
    {
        CommandQueue { items: Vec::new() }
    }

    /// Number of pending items.
    pub fn len(&self) -> (n: usize)
        ensures
            n == self@.len(),
    {
        self.items.len()
    }

    /// Non-blocking bounded enqueue: appends `r` at the back when there is
    /// room and reports whether it was kept; a full queue drops it.
    pub fn try_send(&mut self, r: DeviceResult) -> (kept: bool)
        requires
            old(self).wf(),
        ensures
            final(self).wf(),
            final(self)@ == push_bounded(old(self)@, r),
            kept == (old(self)@.len() < QUEUE_CAPACITY),
    {
        if self.items.len() < QUEUE_CAPACITY {
            self.items.push(r);
            true
        } else {
            false
        }
    }

    /// Dequeue the oldest pending item, if any.
    pub fn try_receive(&mut self) -> (r: Option<DeviceResult>)
        requires
            old(self).wf(),
        ensures
            final(self).wf(),
            match r {
                Option::None => old(self)@.len() == 0 && final(self)@ == old(self)@,
                Option::Some(item) => old(self)@.len() > 0 && item == old(self)@[0]
                    && final(self)@ == old(self)@.skip(1),
            },
    {
        if self.items.len() == 0 {
            Option::None
        } else {
            let item = self.items.remove(0);
            proof {
                assert(self.items@ =~= old(self)@.skip(1));
            }
            Option::Some(item)
        }
    }
}

/// The device's durable dispatch state: the internal queue and the one piece
/// of state that outlives an exchange, the actuator's duty-cycle register.
/// Only the responder step ever writes the register.
pub struct Dispatcher {
    queue: CommandQueue,
    register: u16,
}

impl Dispatcher {
    /// The pending exchanges, oldest first.
    pub closed spec fn pending(&self) -> Seq<DeviceResult> {
        self.queue@
    }

    /// The current actuator duty-cycle register value.
    pub closed spec fn duty_register(&self) -> u16 {
        self.register
    }

    /// The queue stays within its capacity.
    pub open spec fn wf(&self) -> bool {
        self.pending().len() <= QUEUE_CAPACITY
    }

    /// A fresh dispatcher: nothing pending, actuator at rest.
    pub fn new() -> (d: Dispatcher)
        ensures
            d.wf(),
            d.pending() == Seq::<DeviceResult>::empty(),
            d.duty_register() == 0,
    {
        Dispatcher { queue: CommandQueue::new(), register: 0 }
    }

    /// Read the actuator register (the hardware layer may do so at any time).
    pub fn register_value(&self) -> (r: u16)
        ensures
            r == self.duty_register(),
    {
        self.register
    }

    /// Receiver task step, one per inbound report: decode the buffer and
    /// enqueue the decoded command — or the unknown-command error when it
    /// does not decode — without blocking; a full queue drops the outcome.
    pub fn handle_report(&mut self, data: &[u8])
        requires
            old(self).wf(),
        ensures
            final(self).wf(),
            final(self).pending() == push_bounded(old(self).pending(), received_result(data@)),
            final(self).duty_register() == old(self).duty_register(),
    {
        let outcome = match crate::codec::decode_command(data) {
            Result::Ok(c) => DeviceResult::Accepted(c),
            Result::Err(_) => DeviceResult::Rejected(DeviceError::UnknownCommand),
        };
        self.queue.try_send(outcome);
    }

    /// The reply the responder sends for one dequeued item, by the table.
    pub fn reply_to(r: &DeviceResult) -> (reply: DeviceResult)
        ensures
            reply == reply_for(*r),
    {
        match r {
            DeviceResult::Accepted(Command::Ping(v)) => DeviceResult::Accepted(
                Command::Pong(*v),
            ),
            DeviceResult::Accepted(Command::Pong(v)) => DeviceResult::Accepted(
                Command::Ping(*v),
            ),
            DeviceResult::Accepted(Command::Throttle(_)) => DeviceResult::Accepted(Command::Nop),
            DeviceResult::Accepted(Command::AutoPilot(_)) => DeviceResult::Accepted(
                Command::Nop,
            ),
            DeviceResult::Accepted(Command::Nop) => DeviceResult::Accepted(Command::Nop),
            DeviceResult::Rejected(e) => DeviceResult::Rejected(*e),
        }
    }

    /// Responder task step: take the oldest pending item, compute its reply,
    /// set the actuator register when the command asks for it, and hand back
    /// the zero-padded outbound report.  Returns nothing when the queue is
    /// empty (the point where the responder task suspends).
    pub fn respond_next(&mut self) -> (r: Option<Vec<u8>>)
        requires
            old(self).wf(),
        ensures
            final(self).wf(),
            match r {
                Option::None => {
                    &&& old(self).pending().len() == 0
                    &&& final(self).pending() == old(self).pending()
                    &&& final(self).duty_register() == old(self).duty_register()
                },
                Option::Some(report) => {
                    &&& old(self).pending().len() > 0
                    &&& report@ == zero_padded(
                        spec_encode_result(reply_for(old(self).pending()[0])),
                        REPORT_SIZE as nat,
                    )
                    &&& final(self).pending() == old(self).pending().skip(1)
                    &&& final(self).duty_register() == register_after(
                        old(self).pending()[0],
                        old(self).duty_register(),
                    )
                },
            },
    {
        let item = match self.queue.try_receive() {
            Option::None => {
                return Option::None;
            },
            Option::Some(item) => item,
        };
        if let DeviceResult::Accepted(Command::Throttle(bits)) = &item {
            self.register = map_throttle(*bits);
        }
        let reply = Self::reply_to(&item);
        let encoded = encode_result(&reply);
        let report = pad_report(encoded, REPORT_SIZE);
        Option::Some(report)
    }
}

/// Replies keep arrival order.  Whenever two liveness probes are enqueued in
/// sequence and both fit in the queue, they sit at consecutive positions, and
/// the responder — which always takes the oldest item first — answers them
/// with their echoes in that same order, with no reordering in between.
pub proof fn lemma_replies_in_order(q: Seq<DeviceResult>, a: u32, b: u32)
    requires
        q.len() + 2 <= QUEUE_CAPACITY,
    ensures
        ({
            let q2 = push_bounded(
                push_bounded(q, DeviceResult::Accepted(Command::Ping(a))),
                DeviceResult::Accepted(Command::Ping(b)),
            );
            &&& q2.len() == q.len() + 2
            &&& q2.skip(q.len() as int) == seq![
                DeviceResult::Accepted(Command::Ping(a)),
                DeviceResult::Accepted(Command::Ping(b)),
            ]
            &&& reply_for(q2[q.len() as int]) == DeviceResult::Accepted(Command::Pong(a))
            &&& reply_for(q2[q.len() as int + 1]) == DeviceResult::Accepted(Command::Pong(b))
        }),
{
    let q2 = push_bounded(
        push_bounded(q, DeviceResult::Accepted(Command::Ping(a))),
        DeviceResult::Accepted(Command::Ping(b)),
    );
    assert(q2.skip(q.len() as int) =~= seq![
        DeviceResult::Accepted(Command::Ping(a)),
        DeviceResult::Accepted(Command::Ping(b)),
    ]);
}

/// The fixed HID report shape exchanged with the host: one 32-byte buffer in
/// each direction, each carrying exactly one encoded value, zero-padded.  In
/// the report descriptor's terms `output_buffer` is the input usage (device
/// to host) and `input_buffer` the output usage (host to device).
pub struct DeviceData {
    pub output_buffer: [u8; 32],
    pub input_buffer: [u8; 32],
}

impl DeviceData {
    /// A blank report, both buffers zeroed.
    pub fn new() -> (d: DeviceData)
        ensures
            forall|i: int| 0 <= i < 32 ==> d.output_buffer@[i] == 0u8,
            forall|i: int| 0 <= i < 32 ==> d.input_buffer@[i] == 0u8,
    {
        DeviceData { output_buffer: [0u8; 32], input_buffer: [0u8; 32] }
    }

    /// Load one encoded reply into the outbound buffer, zero-padding the
    /// unused bytes; the inbound buffer is untouched.
    pub fn set_output(&mut self, reply: &[u8])
        requires
            reply@.len() <= 32,
        ensures
            final(self).output_buffer@ == zero_padded(reply@, 32),
            final(self).input_buffer == old(self).input_buffer,
    {
        let mut buf: [u8; 32] = [0u8; 32];
        let mut i: usize = 0;
        while i < reply.len()
            invariant
                i <= reply@.len() <= 32,
                forall|j: int| 0 <= j < i ==> buf@[j] == reply@[j],
                forall|j: int| i <= j < 32 ==> buf@[j] == 0u8,
            decreases reply@.len() - i,
        {
            buf[i] = reply[i];
            i = i + 1;
        }
        self.output_buffer = buf;
        assert(self.output_buffer@ =~= zero_padded(reply@, 32));
    }
}

/// USB connection lifecycle of the device, as driven by host signals.
#[derive(Clone, Copy, Debug, PartialEq, Eq, Structural)]
pub enum LinkState {
    /// The bus has not enabled the device (or has disabled it).
    Disabled,
    /// Enabled — possibly reset or addressed — but not yet configured.
    Enabled,
    /// Configured: report exchanges are meaningful.
    Configured,
}

/// Tracks the connection lifecycle `Disabled -> Enabled -> Configured` (and
/// back on disable, reset, or deconfiguration).  The state is readable for
/// connection reporting but is not consulted by the protocol logic itself:
/// decode and dispatch proceed regardless, and the transport below gates the
/// actual exchanges.
pub struct ConnectionState {
    state: LinkState,
}

impl ConnectionState {
    /// The current lifecycle state.
    pub closed spec fn current(&self) -> LinkState {
        self.state
    }

    /// A device starts disabled.
    pub fn new() -> (c: ConnectionState)
        ensures
            c.current() == LinkState::Disabled,
    {
        ConnectionState { state: LinkState::Disabled }
    }

    /// The bus enabled or disabled the device; either way it is no longer
    /// configured.
    pub fn enabled(&mut self, enabled: bool)
        ensures
            final(self).current() == if enabled {
                LinkState::Enabled
            } else {
                LinkState::Disabled
            },
    {
        self.state = if enabled {
            LinkState::Enabled
        } else {
            LinkState::Disabled
        };
    }

    /// A bus reset: an enabled device falls back to unconfigured.
    pub fn reset(&mut self)
        ensures
            final(self).current() == if old(self).current() is Disabled {
                LinkState::Disabled
            } else {
                LinkState::Enabled
            },
    {
        if !matches!(self.state, LinkState::Disabled) {
            self.state = LinkState::Enabled;
        }
    }

    /// The host assigned an address: not configured yet.
    pub fn addressed(&mut self, _addr: u8)
        ensures
            final(self).current() == if old(self).current() is Disabled {
                LinkState::Disabled
            } else {
                LinkState::Enabled
            },
    {
        if !matches!(self.state, LinkState::Disabled) {
            self.state = LinkState::Enabled;
        }
    }

    /// The host set or cleared the device configuration.
    pub fn configured(&mut self, configured: bool)
        ensures
            final(self).current() == if configured {
                LinkState::Configured
            } else if old(self).current() is Disabled {
                LinkState::Disabled
            } else {
                LinkState::Enabled
            },
    {
        if configured {
            self.state = LinkState::Configured;
        } else if !matches!(self.state, LinkState::Disabled) {
            self.state = LinkState::Enabled;
        }
    }

    /// Whether report exchanges are currently meaningful.
    pub fn is_configured(&self) -> (r: bool)
        ensures
            r == (self.current() is Configured),
    {
        matches!(self.state, LinkState::Configured)
    }
}

} // verus!
