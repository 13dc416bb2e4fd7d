//! An in-memory stand-in for the native image.
//!
//! The mock implements all fourteen entry points over plain state: it
//! hands out fresh handles, counts every call it receives, reports the
//! statuses it was configured with, and loops every message sent on a
//! send-capable port back to the receive-capable side, so the binding
//! can be exercised without the platform.

use vstd::prelude::*;

use crate::amidi_library::ImageResolution;
use crate::entry_point::{EntryPoint, ENTRY_POINT_COUNT};

verus! {

/// The image handle under which the mock image reports itself mapped.
pub const MOCK_IMAGE_HANDLE: u64 = 0x101;

/// The address the mock image reports for the entry point at position
/// `i` of the resolution order.
pub open spec fn mock_symbol_addr(i: int) -> u64 {
    (0x1000 + 0x10 * i) as u64
}

/// A counter one above `c`, except that it holds still at the very
/// top; no run ever reaches that.
pub open spec fn bumped(c: u64) -> u64 {
    if c < u64::MAX {
        (c + 1) as u64
    } else {
        c
    }
}

/// One message waiting in the mock's loopback queue.
#[derive(PartialEq, Eq, Debug)]
pub struct MockMessage {
    pub opcode: i32,
    pub data: Vec<u8>,
    pub timestamp: i64,
}

/// Whether `m` carries exactly this opcode, these bytes and this
/// timestamp.
pub open spec fn message_matches(m: MockMessage, opcode: i32, data: Seq<u8>, timestamp: i64) -> bool {
    m.opcode == opcode && m.data@ == data && m.timestamp == timestamp
}

/// Whether `post` is `pre` with one message of this opcode, these
/// bytes and this timestamp appended.
pub open spec fn queue_pushed(
    pre: Seq<MockMessage>,
    post: Seq<MockMessage>,
    opcode: i32,
    data: Seq<u8>,
    timestamp: i64,
) -> bool {
    &&& post.len() == pre.len() + 1
    &&& post.subrange(0, pre.len() as int) == pre
    &&& message_matches(post.last(), opcode, data, timestamp)
}

/// The longest prefix of `data` that fits a buffer of `max_bytes`
/// bytes: the whole of `data` when it fits, else its first `max_bytes`
/// bytes.
pub open spec fn delivered_prefix(data: Seq<u8>, max_bytes: int) -> Seq<u8> {
    if data.len() <= max_bytes {
        data
    } else {
        data.subrange(0, max_bytes)
    }
}

/// How often each entry point of the mock image has been called.
#[derive(Clone, Copy, PartialEq, Eq, Structural, Debug)]
pub struct CallCounts {
    device_from_java: u64,
    device_release: u64,
    device_get_type: u64,
    device_get_num_input_ports: u64,
    device_get_num_output_ports: u64,
    device_get_default_protocol: u64,
    output_port_open: u64,
    output_port_close: u64,
    output_port_receive: u64,
    input_port_open: u64,
    input_port_send: u64,
    input_port_send_with_timestamp: u64,
    input_port_send_flush: u64,
    input_port_close: u64,
}

/// Whether `post` is `pre` with exactly the count of `e` one higher.
pub open spec fn counts_bumped(pre: CallCounts, post: CallCounts, e: EntryPoint) -> bool {
    &&& post.count_of(e) == bumped(pre.count_of(e))
    &&& forall|e2: EntryPoint| e2 != e ==> post.count_of(e2) == pre.count_of(e2)
}

impl CallCounts {
    /// How often the entry point `e` has been called.
    pub closed spec fn count_of(self, e: EntryPoint) -> u64 {
        match e {
            EntryPoint::DeviceFromJava => self.device_from_java,
            EntryPoint::DeviceRelease => self.device_release,
            EntryPoint::DeviceGetType => self.device_get_type,
            EntryPoint::DeviceGetNumInputPorts => self.device_get_num_input_ports,
            EntryPoint::DeviceGetNumOutputPorts => self.device_get_num_output_ports,
            EntryPoint::DeviceGetDefaultProtocol => self.device_get_default_protocol,
            EntryPoint::OutputPortOpen => self.output_port_open,
            EntryPoint::OutputPortClose => self.output_port_close,
            EntryPoint::OutputPortReceive => self.output_port_receive,
            EntryPoint::InputPortOpen => self.input_port_open,
            EntryPoint::InputPortSend => self.input_port_send,
            EntryPoint::InputPortSendWithTimestamp => self.input_port_send_with_timestamp,
            EntryPoint::InputPortSendFlush => self.input_port_send_flush,
            EntryPoint::InputPortClose => self.input_port_close,
        }
    }

    /// A table with every count at zero.
    pub fn new() -> (c: CallCounts)
        ensures
            forall|e: EntryPoint| c.count_of(e) == 0,
    {
        CallCounts {
            device_from_java: 0,
            device_release: 0,
            device_get_type: 0,
            device_get_num_input_ports: 0,
            device_get_num_output_ports: 0,
            device_get_default_protocol: 0,
            output_port_open: 0,
            output_port_close: 0,
            output_port_receive: 0,
            input_port_open: 0,
            input_port_send: 0,
            input_port_send_with_timestamp: 0,
            input_port_send_flush: 0,
            input_port_close: 0,
        }
    }

    /// How often the entry point `e` has been called, as a run-time
    /// value.
    pub fn count(&self, e: EntryPoint) -> (n: u64)
        ensures
            n == self.count_of(e),
    {
        match e {
            EntryPoint::DeviceFromJava => self.device_from_java,
            EntryPoint::DeviceRelease => self.device_release,
            EntryPoint::DeviceGetType => self.device_get_type,
            EntryPoint::DeviceGetNumInputPorts => self.device_get_num_input_ports,
            EntryPoint::DeviceGetNumOutputPorts => self.device_get_num_output_ports,
            EntryPoint::DeviceGetDefaultProtocol => self.device_get_default_protocol,
            EntryPoint::OutputPortOpen => self.output_port_open,
            EntryPoint::OutputPortClose => self.output_port_close,
            EntryPoint::OutputPortReceive => self.output_port_receive,
            EntryPoint::InputPortOpen => self.input_port_open,
            EntryPoint::InputPortSend => self.input_port_send,
            EntryPoint::InputPortSendWithTimestamp => self.input_port_send_with_timestamp,
            EntryPoint::InputPortSendFlush => self.input_port_send_flush,
            EntryPoint::InputPortClose => self.input_port_close,
        }
    }

    /// Record one call of the entry point `e`.
    fn record(&mut self, e: EntryPoint)
        ensures
            counts_bumped(*old(self), *final(self), e),
    {
        match e {
            EntryPoint::DeviceFromJava => {
                self.device_from_java = bump_u64(self.device_from_java);
            },
            EntryPoint::DeviceRelease => {
                self.device_release = bump_u64(self.device_release);
            },
            EntryPoint::DeviceGetType => {
                self.device_get_type = bump_u64(self.device_get_type);
            },
            EntryPoint::DeviceGetNumInputPorts => {
                self.device_get_num_input_ports = bump_u64(self.device_get_num_input_ports);
            },
            EntryPoint::DeviceGetNumOutputPorts => {
                self.device_get_num_output_ports = bump_u64(self.device_get_num_output_ports);
            },
            EntryPoint::DeviceGetDefaultProtocol => {
                self.device_get_default_protocol = bump_u64(self.device_get_default_protocol);
            },
            EntryPoint::OutputPortOpen => {
                self.output_port_open = bump_u64(self.output_port_open);
            },
            EntryPoint::OutputPortClose => {
                self.output_port_close = bump_u64(self.output_port_close);
            },
            EntryPoint::OutputPortReceive => {
                self.output_port_receive = bump_u64(self.output_port_receive);
            },
            EntryPoint::InputPortOpen => {
                self.input_port_open = bump_u64(self.input_port_open);
            },
            EntryPoint::InputPortSend => {
                self.input_port_send = bump_u64(self.input_port_send);
            },
            EntryPoint::InputPortSendWithTimestamp => {
                self.input_port_send_with_timestamp = bump_u64(
                    self.input_port_send_with_timestamp,
                );
            },
            EntryPoint::InputPortSendFlush => {
                self.input_port_send_flush = bump_u64(self.input_port_send_flush);
            },
            EntryPoint::InputPortClose => {
                self.input_port_close = bump_u64(self.input_port_close);
            },
        }
    }
}

/// One above `c`, holding still at the very top.
fn bump_u64(c: u64) -> (r: u64)
    ensures
        r == bumped(c),
{
    if c < u64::MAX {
        c + 1
    } else {
        c
    }
}

/// The mock native image.  Its fourteen operations mirror the entry
/// points one for one, over plain state instead of native resources.
#[derive(PartialEq, Eq, Debug)]
pub struct MockNative {
    from_java_status: i32,
    send_error: isize,
    inject_opcode: i32,
    device_type_value: i32,
    num_input_ports_value: isize,
    num_output_ports_value: isize,
    default_protocol_value: i32,
    next_handle: u64,
    queue: Vec<MockMessage>,
    counts: CallCounts,
}

/// Whether `a` and `b` are configured alike: same statuses to report,
/// same injected opcode, same device metadata.
pub open spec fn same_config(a: MockNative, b: MockNative) -> bool {
    &&& a.spec_from_java_status() == b.spec_from_java_status()
    &&& a.spec_send_error() == b.spec_send_error()
    &&& a.spec_inject_opcode() == b.spec_inject_opcode()
    &&& a.spec_device_type() == b.spec_device_type()
    &&& a.spec_num_input_ports() == b.spec_num_input_ports()
    &&& a.spec_num_output_ports() == b.spec_num_output_ports()
    &&& a.spec_default_protocol() == b.spec_default_protocol()
}

impl MockNative {
    /// The status the device-creation entry point will report.
    pub closed spec fn spec_from_java_status(self) -> i32 {
        self.from_java_status
    }

    /// The error every send will report, or zero when sends succeed.
    pub closed spec fn spec_send_error(self) -> isize {
        self.send_error
    }

    /// The opcode attached to every message looped back.
    pub closed spec fn spec_inject_opcode(self) -> i32 {
        self.inject_opcode
    }

    /// The device type the mock device reports.
    pub closed spec fn spec_device_type(self) -> i32 {
        self.device_type_value
    }

    /// The input-port count the mock device reports.
    pub closed spec fn spec_num_input_ports(self) -> isize {
        self.num_input_ports_value
    }

    /// The output-port count the mock device reports.
    pub closed spec fn spec_num_output_ports(self) -> isize {
        self.num_output_ports_value
    }

    /// The default protocol the mock device reports.
    pub closed spec fn spec_default_protocol(self) -> i32 {
        self.default_protocol_value
    }

    /// The handle the next successful creation or open will hand out.
    pub closed spec fn spec_next_handle(self) -> u64 {
        self.next_handle
    }

    /// The messages waiting in the loopback queue, oldest first.
    pub closed spec fn spec_queue(self) -> Seq<MockMessage> {
        self.queue@
    }

    /// How often each entry point has been called.
    pub closed spec fn spec_counts(self) -> CallCounts {
        self.counts
    }

    /// The mock never hands out the null handle.
    pub open spec fn wf(self) -> bool {
        self.spec_next_handle() != 0 && self.spec_send_error() <= 0
    }

    /// A fresh mock image: every call succeeds, the first handle given
    /// out is 0x1, looped-back messages carry opcode 1, and the mock
    /// device reports type 2, one input port, one output port and
    /// default protocol 0.
    pub fn new() -> (m: MockNative)
        ensures
            m.wf(),
            m.spec_from_java_status() == 0,
            m.spec_send_error() == 0,
            m.spec_inject_opcode() == 1,
            m.spec_device_type() == 2,
            m.spec_num_input_ports() == 1,
            m.spec_num_output_ports() == 1,
            m.spec_default_protocol() == 0,
            m.spec_next_handle() == 1,
            m.spec_queue().len() == 0,
            forall|e: EntryPoint| m.spec_counts().count_of(e) == 0,
    {
        MockNative {
            from_java_status: 0,
            send_error: 0,
            inject_opcode: 1,
            device_type_value: 2,
            num_input_ports_value: 1,
            num_output_ports_value: 1,
            default_protocol_value: 0,
            next_handle: 1,
            queue: Vec::new(),
            counts: CallCounts::new(),
        }
    }

    /// Configure the status the device-creation entry point reports.
    pub fn set_from_java_status(&mut self, status: i32)
        requires
            old(self).wf(),
        ensures
            final(self).wf(),
            final(self).spec_from_java_status() == status,
            final(self).spec_send_error() == old(self).spec_send_error(),
            final(self).spec_inject_opcode() == old(self).spec_inject_opcode(),
            final(self).spec_device_type() == old(self).spec_device_type(),
            final(self).spec_num_input_ports() == old(self).spec_num_input_ports(),
            final(self).spec_num_output_ports() == old(self).spec_num_output_ports(),
            final(self).spec_default_protocol() == old(self).spec_default_protocol(),
            final(self).spec_next_handle() == old(self).spec_next_handle(),
            final(self).spec_queue() == old(self).spec_queue(),
            final(self).spec_counts() == old(self).spec_counts(),
    {
        self.from_java_status = status;
    }

    /// Configure the error every send reports; zero lets sends succeed
    /// again.
    pub fn set_send_error(&mut self, error: isize)
        requires
            old(self).wf(),
            error <= 0,
        ensures
            final(self).wf(),
            final(self).spec_send_error() == error,
            final(self).spec_from_java_status() == old(self).spec_from_java_status(),
            final(self).spec_inject_opcode() == old(self).spec_inject_opcode(),
            final(self).spec_device_type() == old(self).spec_device_type(),
            final(self).spec_num_input_ports() == old(self).spec_num_input_ports(),
            final(self).spec_num_output_ports() == old(self).spec_num_output_ports(),
            final(self).spec_default_protocol() == old(self).spec_default_protocol(),
            final(self).spec_next_handle() == old(self).spec_next_handle(),
            final(self).spec_queue() == old(self).spec_queue(),
            final(self).spec_counts() == old(self).spec_counts(),
    {
        self.send_error = error;
    }

    /// Configure the opcode attached to looped-back messages.
    pub fn set_inject_opcode(&mut self, opcode: i32)
        requires
            old(self).wf(),
        ensures
            final(self).wf(),
            final(self).spec_inject_opcode() == opcode,
            final(self).spec_from_java_status() == old(self).spec_from_java_status(),
            final(self).spec_send_error() == old(self).spec_send_error(),
            final(self).spec_device_type() == old(self).spec_device_type(),
            final(self).spec_num_input_ports() == old(self).spec_num_input_ports(),
            final(self).spec_num_output_ports() == old(self).spec_num_output_ports(),
            final(self).spec_default_protocol() == old(self).spec_default_protocol(),
            final(self).spec_next_handle() == old(self).spec_next_handle(),
            final(self).spec_queue() == old(self).spec_queue(),
            final(self).spec_counts() == old(self).spec_counts(),
    {
        self.inject_opcode = opcode;
    }

    /// How often each entry point has been called, as a run-time
    /// value.
    pub fn counts(&self) -> (c: CallCounts)
        ensures
            c == self.spec_counts(),
    {
        self.counts
    }

    /// How many messages wait in the loopback queue.
    pub fn queue_len(&self) -> (n: usize)
        ensures
            n == self.spec_queue().len(),
    {
        self.queue.len()
    }

    /// The device-creation entry point: reports the configured status,
    /// and on success hands out a fresh non-zero device handle.
    pub fn device_from_java(&mut self) -> (r: (i32, u64))
        requires
            old(self).wf(),
        ensures
            final(self).wf(),
            same_config(*final(self), *old(self)),
            counts_bumped(old(self).spec_counts(), final(self).spec_counts(),
                EntryPoint::DeviceFromJava),
            final(self).spec_queue() == old(self).spec_queue(),
            r.0 == old(self).spec_from_java_status(),
            r.0 == 0 ==> r.1 == old(self).spec_next_handle() && r.1 != 0
                && final(self).spec_next_handle() == bumped(old(self).spec_next_handle()),
            r.0 != 0 ==> r.1 == 0 && final(self).spec_next_handle() == old(self).spec_next_handle(),
    {
        self.counts.record(EntryPoint::DeviceFromJava);
        if self.from_java_status == 0 {
            let handle = self.next_handle;
            self.next_handle = bump_u64(self.next_handle);
            (0, handle)
        } else {
            (self.from_java_status, 0)
        }
    }

    /// The device-release entry point: records the call and reports
    /// success.
    #[allow(unused_variables)]
    pub fn device_release(&mut self, device: u64) -> (status: i32)
        requires
            old(self).wf(),
        ensures
            final(self).wf(),
            same_config(*final(self), *old(self)),
            counts_bumped(old(self).spec_counts(), final(self).spec_counts(),
                EntryPoint::DeviceRelease),
            final(self).spec_queue() == old(self).spec_queue(),
            final(self).spec_next_handle() == old(self).spec_next_handle(),
            status == 0,
    {
        self.counts.record(EntryPoint::DeviceRelease);
        0
    }

    /// The device-type entry point: reports the configured device
    /// type.
    #[allow(unused_variables)]
    pub fn device_get_type(&mut self, device: u64) -> (t: i32)
        requires
            old(self).wf(),
        ensures
            final(self).wf(),
            same_config(*final(self), *old(self)),
            counts_bumped(old(self).spec_counts(), final(self).spec_counts(),
                EntryPoint::DeviceGetType),
            final(self).spec_queue() == old(self).spec_queue(),
            final(self).spec_next_handle() == old(self).spec_next_handle(),
            t == old(self).spec_device_type(),
    {
        self.counts.record(EntryPoint::DeviceGetType);
        self.device_type_value
    }

    /// The input-port-count entry point: reports the configured count.
    #[allow(unused_variables)]
    pub fn device_get_num_input_ports(&mut self, device: u64) -> (n: isize)
        requires
            old(self).wf(),
        ensures
            final(self).wf(),
            same_config(*final(self), *old(self)),
            counts_bumped(old(self).spec_counts(), final(self).spec_counts(),
                EntryPoint::DeviceGetNumInputPorts),
            final(self).spec_queue() == old(self).spec_queue(),
            final(self).spec_next_handle() == old(self).spec_next_handle(),
            n == old(self).spec_num_input_ports(),
    {
        self.counts.record(EntryPoint::DeviceGetNumInputPorts);
        self.num_input_ports_value
    }

    /// The output-port-count entry point: reports the configured
    /// count.
    #[allow(unused_variables)]
    pub fn device_get_num_output_ports(&mut self, device: u64) -> (n: isize)
        requires
            old(self).wf(),
        ensures
            final(self).wf(),
            same_config(*final(self), *old(self)),
            counts_bumped(old(self).spec_counts(), final(self).spec_counts(),
                EntryPoint::DeviceGetNumOutputPorts),
            final(self).spec_queue() == old(self).spec_queue(),
            final(self).spec_next_handle() == old(self).spec_next_handle(),
            n == old(self).spec_num_output_ports(),
    {
        self.counts.record(EntryPoint::DeviceGetNumOutputPorts);
        self.num_output_ports_value
    }

    /// The default-protocol entry point: reports the configured
    /// protocol.
    #[allow(unused_variables)]
    pub fn device_get_default_protocol(&mut self, device: u64) -> (p: i32)
        requires
            old(self).wf(),
        ensures
            final(self).wf(),
            same_config(*final(self), *old(self)),
            counts_bumped(old(self).spec_counts(), final(self).spec_counts(),
                EntryPoint::DeviceGetDefaultProtocol),
            final(self).spec_queue() == old(self).spec_queue(),
            final(self).spec_next_handle() == old(self).spec_next_handle(),
            p == old(self).spec_default_protocol(),
    {
        self.counts.record(EntryPoint::DeviceGetDefaultProtocol);
        self.default_protocol_value
    }

    /// The output-port-open entry point: hands out a fresh non-zero
    /// port handle.
    #[allow(unused_variables)]
    pub fn output_port_open(&mut self, device: u64, port_number: i32) -> (r: (i32, u64))
        requires
            old(self).wf(),
        ensures
            final(self).wf(),
            same_config(*final(self), *old(self)),
            counts_bumped(old(self).spec_counts(), final(self).spec_counts(),
                EntryPoint::OutputPortOpen),
            final(self).spec_queue() == old(self).spec_queue(),
            r.0 == 0,
            r.1 == old(self).spec_next_handle(),
            r.1 != 0,
            final(self).spec_next_handle() == bumped(old(self).spec_next_handle()),
    {
        self.counts.record(EntryPoint::OutputPortOpen);
        let handle = self.next_handle;
        self.next_handle = bump_u64(self.next_handle);
        (0, handle)
    }

    /// The input-port-open entry point: hands out a fresh non-zero
    /// port handle.
    #[allow(unused_variables)]
    pub fn input_port_open(&mut self, device: u64, port_number: i32) -> (r: (i32, u64))
        requires
            old(self).wf(),
        ensures
            final(self).wf(),
            same_config(*final(self), *old(self)),
            counts_bumped(old(self).spec_counts(), final(self).spec_counts(),
                EntryPoint::InputPortOpen),
            final(self).spec_queue() == old(self).spec_queue(),
            r.0 == 0,
            r.1 == old(self).spec_next_handle(),
            r.1 != 0,
            final(self).spec_next_handle() == bumped(old(self).spec_next_handle()),
    {
        self.counts.record(EntryPoint::InputPortOpen);
        let handle = self.next_handle;
        self.next_handle = bump_u64(self.next_handle);
        (0, handle)
    }

    /// The send entry point: reports the configured error and keeps
    /// the queue as it is, or accepts the whole buffer and loops it
    /// back with the injected opcode and timestamp zero.
    #[allow(unused_variables)]
    pub fn input_port_send(&mut self, port: u64, buffer: &[u8]) -> (reported: isize)
        requires
            old(self).wf(),
            buffer@.len() <= isize::MAX,
        ensures
            final(self).wf(),
            same_config(*final(self), *old(self)),
            counts_bumped(old(self).spec_counts(), final(self).spec_counts(),
                EntryPoint::InputPortSend),
            final(self).spec_next_handle() == old(self).spec_next_handle(),
            old(self).spec_send_error() < 0 ==> reported == old(self).spec_send_error()
                && final(self).spec_queue() == old(self).spec_queue(),
            old(self).spec_send_error() == 0 ==> reported == buffer@.len() && queue_pushed(
                old(self).spec_queue(),
                final(self).spec_queue(),
                old(self).spec_inject_opcode(),
                buffer@,
                0,
            ),
    {
        self.counts.record(EntryPoint::InputPortSend);
        if self.send_error < 0 {
            return self.send_error;
        }
        let data = copy_bytes(buffer);
        self.queue.push(MockMessage { opcode: self.inject_opcode, data, timestamp: 0 });
        proof {
            let pre = old(self).spec_queue();
            assert(self.queue@.subrange(0, pre.len() as int) =~= pre);
        }
        buffer.len() as isize
    }

    /// The send-with-timestamp entry point: as `input_port_send`, with
    /// the given timestamp attached to the looped-back message.
    #[allow(unused_variables)]
    pub fn input_port_send_with_timestamp(&mut self, port: u64, buffer: &[u8], timestamp: i64)
        -> (reported: isize)
        requires
            old(self).wf(),
            buffer@.len() <= isize::MAX,
        ensures
            final(self).wf(),
            same_config(*final(self), *old(self)),
            counts_bumped(old(self).spec_counts(), final(self).spec_counts(),
                EntryPoint::InputPortSendWithTimestamp),
            final(self).spec_next_handle() == old(self).spec_next_handle(),
            old(self).spec_send_error() < 0 ==> reported == old(self).spec_send_error()
                && final(self).spec_queue() == old(self).spec_queue(),
            old(self).spec_send_error() == 0 ==> reported == buffer@.len() && queue_pushed(
                old(self).spec_queue(),
                final(self).spec_queue(),
                old(self).spec_inject_opcode(),
                buffer@,
                timestamp,
            ),
    {
        self.counts.record(EntryPoint::InputPortSendWithTimestamp);
        if self.send_error < 0 {
            return self.send_error;
        }
        let data = copy_bytes(buffer);
        self.queue.push(MockMessage { opcode: self.inject_opcode, data, timestamp });
        proof {
            let pre = old(self).spec_queue();
            assert(self.queue@.subrange(0, pre.len() as int) =~= pre);
        }
        buffer.len() as isize
    }

    /// The flush entry point: records the call and reports success.
    #[allow(unused_variables)]
    pub fn input_port_send_flush(&mut self, port: u64) -> (status: i32)
        requires
            old(self).wf(),
        ensures
            final(self).wf(),
            same_config(*final(self), *old(self)),
            counts_bumped(old(self).spec_counts(), final(self).spec_counts(),
                EntryPoint::InputPortSendFlush),
            final(self).spec_queue() == old(self).spec_queue(),
            final(self).spec_next_handle() == old(self).spec_next_handle(),
            status == 0,
    {
        self.counts.record(EntryPoint::InputPortSendFlush);
        0
    }

    /// The receive entry point: reports zero messages on an empty
    /// queue, else takes the oldest message off the queue and delivers
    /// as much of its bytes as `max_bytes` allows, never more, together
    /// with its opcode and timestamp.
    #[allow(unused_variables)]
    pub fn output_port_receive(&mut self, port: u64, max_bytes: usize)
        -> (r: (isize, i32, Vec<u8>, i64))
        requires
            old(self).wf(),
        ensures
            final(self).wf(),
            same_config(*final(self), *old(self)),
            counts_bumped(old(self).spec_counts(), final(self).spec_counts(),
                EntryPoint::OutputPortReceive),
            final(self).spec_next_handle() == old(self).spec_next_handle(),
            r.2@.len() <= max_bytes,
            old(self).spec_queue().len() == 0 ==> r.0 == 0 && r.1 == 0 && r.2@.len() == 0 && r.3
                == 0 && final(self).spec_queue() == old(self).spec_queue(),
            old(self).spec_queue().len() > 0 ==> {
                &&& r.0 == 1
                &&& r.1 == old(self).spec_queue()[0].opcode
                &&& r.2@ == delivered_prefix(old(self).spec_queue()[0].data@, max_bytes as int)
                &&& r.3 == old(self).spec_queue()[0].timestamp
                &&& final(self).spec_queue() == old(self).spec_queue().subrange(
                    1,
                    old(self).spec_queue().len() as int,
                )
            },
    {
        self.counts.record(EntryPoint::OutputPortReceive);
        if self.queue.len() == 0 {
            let empty: Vec<u8> = Vec::new();
            return (0, 0, empty, 0);
        }
        let m = self.queue.remove(0);
        let n: usize = if max_bytes < m.data.len() {
            max_bytes
        } else {
            m.data.len()
        };
        let mut delivered: Vec<u8> = Vec::new();
        let mut i: usize = 0;
        while i < n
            invariant
                i <= n,
                n <= m.data@.len(),
                delivered@.len() == i,
                forall|j: int| 0 <= j < i ==> delivered@[j] == m.data@[j],
            decreases n - i,
        {
            delivered.push(m.data[i]);
            i = i + 1;
        }
        proof {
            assert(delivered@ =~= delivered_prefix(m.data@, max_bytes as int));
            assert(self.queue@ =~= old(self).spec_queue().subrange(
                1,
                old(self).spec_queue().len() as int,
            ));
        }
        (1, m.opcode, delivered, m.timestamp)
    }

    /// The output-port-close entry point: records the call.
    #[allow(unused_variables)]
    pub fn output_port_close(&mut self, port: u64)
        requires
            old(self).wf(),
        ensures
            final(self).wf(),
            same_config(*final(self), *old(self)),
            counts_bumped(old(self).spec_counts(), final(self).spec_counts(),
                EntryPoint::OutputPortClose),
            final(self).spec_queue() == old(self).spec_queue(),
            final(self).spec_next_handle() == old(self).spec_next_handle(),
    {
        self.counts.record(EntryPoint::OutputPortClose);
    }

    /// The input-port-close entry point: records the call.
    #[allow(unused_variables)]
    pub fn input_port_close(&mut self, port: u64)
        requires
            old(self).wf(),
        ensures
            final(self).wf(),
            same_config(*final(self), *old(self)),
            counts_bumped(old(self).spec_counts(), final(self).spec_counts(),
                EntryPoint::InputPortClose),
            final(self).spec_queue() == old(self).spec_queue(),
            final(self).spec_next_handle() == old(self).spec_next_handle(),
    {
        self.counts.record(EntryPoint::InputPortClose);
    }
}

/// The loader's report for the mock image: opened under
/// `MOCK_IMAGE_HANDLE`, with every entry point resolved to its mock
/// address.
pub fn conforming_resolution() -> (r: ImageResolution)
    ensures
        r matches ImageResolution::Opened { image, symbols } && {
            &&& image == MOCK_IMAGE_HANDLE
            &&& symbols@.len() == ENTRY_POINT_COUNT
            &&& forall|i: int|
                0 <= i < ENTRY_POINT_COUNT ==> symbols@[i] == mock_symbol_addr(i) && symbols@[i]
                    != 0
        },
{
    let mut symbols: Vec<u64> = Vec::new();
    let mut i: usize = 0;
    while i < ENTRY_POINT_COUNT
        invariant
            i <= ENTRY_POINT_COUNT,
            symbols@.len() == i,
            forall|j: int| 0 <= j < i ==> symbols@[j] == mock_symbol_addr(j) && symbols@[j] != 0,
        decreases ENTRY_POINT_COUNT - i,
    {
        symbols.push(0x1000 + 0x10 * (i as u64));
        i = i + 1;
    }
    ImageResolution::Opened { image: MOCK_IMAGE_HANDLE, symbols }
}

/// The loader's report for a mock image that lacks one entry point:
/// as the conforming report, except that the lookup of `absent` found
/// nothing.
pub fn resolution_missing(absent: EntryPoint) -> (r: ImageResolution)
    ensures
        r matches ImageResolution::Opened { image, symbols } && {
            &&& image == MOCK_IMAGE_HANDLE
            &&& symbols@.len() == ENTRY_POINT_COUNT
            &&& symbols@[absent.index()] == 0
            &&& forall|i: int|
                0 <= i < ENTRY_POINT_COUNT && i != absent.index() ==> symbols@[i]
                    == mock_symbol_addr(i) && symbols@[i] != 0
        },
{
    let full = conforming_resolution();
    match full {
        ImageResolution::Opened { image, mut symbols } => {
            symbols.set(absent.index_value(), 0);
            ImageResolution::Opened { image, symbols }
        },
        ImageResolution::OpenFailed(cause) => ImageResolution::OpenFailed(cause),
    }
}

/// Law (loopback round trip): a message sent through the loopback
/// queue while the queue was empty is the very message the next
/// receive takes off the queue; with enough room in the buffer the
/// delivered bytes are exactly the bytes sent, with the sent opcode
/// and timestamp beside them, and the queue is empty again.
pub proof fn lemma_loopback_round_trip(
    pre: Seq<MockMessage>,
    post: Seq<MockMessage>,
    opcode: i32,
    data: Seq<u8>,
    timestamp: i64,
    max_bytes: int,
)
    requires
        pre.len() == 0,
        queue_pushed(pre, post, opcode, data, timestamp),
        max_bytes >= data.len(),
    ensures
        post.len() > 0,
        message_matches(post[0], opcode, data, timestamp),
        delivered_prefix(post[0].data@, max_bytes) == data,
        post.subrange(1, post.len() as int).len() == 0,
{
    assert(post[0] == post.last());
}

/// The bytes of `buffer`, owned.
fn copy_bytes(buffer: &[u8]) -> (r: Vec<u8>)
    ensures
        r@ == buffer@,
{
    let mut r: Vec<u8> = Vec::new();
    let mut i: usize = 0;
    while i < buffer.len()
        invariant
            i <= buffer@.len(),
            r@.len() == i,
            forall|j: int| 0 <= j < i ==> r@[j] == buffer@[j],
        decreases buffer@.len() - i,
    {
        r.push(buffer[i]);
        i = i + 1;
    }
    proof {
        assert(r@ =~= buffer@);
    }
    r
}

} // verus!
