//! One MIDI device obtained from the native image.

use vstd::prelude::*;

use std::sync::Arc;

use crate::amidi_library::{share_library, AmidiLibrary};
use crate::entry_point::EntryPoint;
use crate::midi_input_port::MidiInputPort;
use crate::midi_output_port::MidiOutputPort;
use crate::native_call::NativeCall;

verus! {

/// One MIDI device.  It shares the library binding it was created
/// from, so the native image stays mapped while the device exists, and
/// it exclusively owns one native device handle, which it releases
/// exactly once.
#[derive(Debug)]
pub struct MidiDevice {
    library: Arc<AmidiLibrary>,
    raw_device: u64,
}

impl MidiDevice {
    /// The library binding this device was created from.
    pub closed spec fn spec_library(self) -> AmidiLibrary {
        *self.library
    }

    /// The native device handle; zero once the device is released.
    pub closed spec fn spec_handle(self) -> u64 {
        self.raw_device
    }

    /// Whether the device still owns its native handle.
    pub open spec fn is_open(self) -> bool {
        self.spec_handle() != 0
    }

    /// The call that answers the query `entry` for this device.
    pub open spec fn query_call(self, entry: EntryPoint) -> NativeCall {
        NativeCall {
            entry,
            fn_addr: self.spec_library().table.addr_of(entry),
            target: self.spec_handle(),
        }
    }

    /// The call that releases this device.
    pub open spec fn release_call(self) -> NativeCall {
        self.query_call(EntryPoint::DeviceRelease)
    }

    /// The library binding this device was created from.
    pub fn library(&self) -> (l: &Arc<AmidiLibrary>)
        ensures
            **l == self.spec_library(),
    {
        &self.library
    }

    /// The native device handle; zero once the device is released.
    pub fn handle(&self) -> (h: u64)
        ensures
            h == self.spec_handle(),
    {
        self.raw_device
    }

    /// Interpret what the device-creation entry point reported after
    /// being called with the platform's execution-environment handle,
    /// the platform's device object reference, and an output slot.
    /// Those two platform inputs are opaque and consumed by the native
    /// call itself; here `status` is the call's return value and
    /// `raw_device` the handle it wrote, non-zero whenever the call
    /// succeeded.  A non-zero status is the error, surfaced verbatim,
    /// and then no device handle is held at all; on success the device
    /// owns the new handle and shares `library`.
    pub fn from_java(library: Arc<AmidiLibrary>, status: i32, raw_device: u64)
        -> (r: Result<MidiDevice, i32>)
        requires
            status == 0 ==> raw_device != 0,
        ensures
            status != 0 ==> (r matches Err(e) && e == status),
            status == 0 ==> (r matches Ok(d) && d.spec_library() == library && d.spec_handle()
                == raw_device && d.is_open()),
    {
        if status != 0 {
            return Err(status);
        }
        Ok(MidiDevice { library, raw_device })
    }

    /// The call that obtains the device's type classification; what the
    /// entry point returns is the answer, surfaced to the caller
    /// verbatim.
    pub fn device_type(&self) -> (c: NativeCall)
        requires
            self.is_open(),
        ensures
            c == self.query_call(EntryPoint::DeviceGetType),
    {
        self.query(EntryPoint::DeviceGetType)
    }

    /// The call that counts the device's input ports; a negative
    /// answer reports that the query itself failed and is surfaced, not
    /// clamped.
    pub fn num_input_ports(&self) -> (c: NativeCall)
        requires
            self.is_open(),
        ensures
            c == self.query_call(EntryPoint::DeviceGetNumInputPorts),
    {
        self.query(EntryPoint::DeviceGetNumInputPorts)
    }

    /// The call that counts the device's output ports; a negative
    /// answer reports that the query itself failed and is surfaced, not
    /// clamped.
    pub fn num_output_ports(&self) -> (c: NativeCall)
        requires
            self.is_open(),
        ensures
            c == self.query_call(EntryPoint::DeviceGetNumOutputPorts),
    {
        self.query(EntryPoint::DeviceGetNumOutputPorts)
    }

    /// The call that obtains the device's default protocol; what the
    /// entry point returns is the answer, surfaced to the caller
    /// verbatim.
    pub fn default_protocol(&self) -> (c: NativeCall)
        requires
            self.is_open(),
        ensures
            c == self.query_call(EntryPoint::DeviceGetDefaultProtocol),
    {
        self.query(EntryPoint::DeviceGetDefaultProtocol)
    }

    /// Interpret what the output-port-open entry point reported after
    /// being called with this device's handle, a zero-based port index,
    /// and an output slot.  `status` is the call's return value and
    /// `raw_port` the handle it wrote, non-zero whenever the call
    /// succeeded.  A non-zero status is the error, surfaced verbatim,
    /// and then no port handle is retained; on success the new port
    /// owns the handle and shares this device's library binding.
    pub fn open_output_port(&self, status: i32, raw_port: u64) -> (r: Result<MidiOutputPort, i32>)
        requires
            self.is_open(),
            status == 0 ==> raw_port != 0,
        ensures
            status != 0 ==> (r matches Err(e) && e == status),
            status == 0 ==> (r matches Ok(p) && p.spec_library() == self.spec_library()
                && p.spec_handle() == raw_port && p.is_open()),
    {
        if status != 0 {
            return Err(status);
        }
        Ok(MidiOutputPort::from_parts(share_library(&self.library), raw_port))
    }

    /// Interpret what the input-port-open entry point reported after
    /// being called with this device's handle, a zero-based port index,
    /// and an output slot.  The outcome reads exactly as for
    /// `open_output_port`.
    pub fn open_input_port(&self, status: i32, raw_port: u64) -> (r: Result<MidiInputPort, i32>)
        requires
            self.is_open(),
            status == 0 ==> raw_port != 0,
        ensures
            status != 0 ==> (r matches Err(e) && e == status),
            status == 0 ==> (r matches Ok(p) && p.spec_library() == self.spec_library()
                && p.spec_handle() == raw_port && p.is_open()),
    {
        if status != 0 {
            return Err(status);
        }
        Ok(MidiInputPort::from_parts(share_library(&self.library), raw_port))
    }

    /// Release the device.  On the first call the releasing native
    /// call is returned, to be performed exactly once — a non-zero
    /// status from it is recorded as a diagnostic by the caller, never
    /// escalated; the handle is given up at the same time, so any
    /// further call returns nothing and leaves the device as it is —
    /// releasing twice is safe and causes no second native call.
    pub fn release(&mut self) -> (call: Option<NativeCall>)
        ensures
            !final(self).is_open(),
            final(self).spec_library() == old(self).spec_library(),
            old(self).is_open() ==> call == Some(old(self).release_call()),
            !old(self).is_open() ==> call is None && *final(self) == *old(self),
    {
        if self.raw_device != 0 {
            let call = self.query(EntryPoint::DeviceRelease);
            self.raw_device = 0;
            Some(call)
        } else {
            None
        }
    }

    /// The native call that puts `entry` to this device.
    fn query(&self, entry: EntryPoint) -> (c: NativeCall)
        requires
            self.is_open(),
        ensures
            c == self.query_call(entry),
    {
        NativeCall {
            entry,
            fn_addr: self.library.table.addr(entry),
            target: self.raw_device,
        }
    }
}

} // verus!
