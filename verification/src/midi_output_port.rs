//! A receive-capable port opened on a MIDI device.

use vstd::prelude::*;

use std::sync::Arc;

use crate::amidi_library::AmidiLibrary;
use crate::entry_point::EntryPoint;
use crate::native_call::NativeCall;

verus! {

/// What one successful receive call delivered: the event's opcode, how
/// many bytes were written into the caller's buffer, and the event's
/// timestamp.
#[derive(Clone, Copy, PartialEq, Eq, Structural, Debug)]
pub struct ReceivedEvent {
    pub opcode: i32,
    pub bytes_received: usize,
    pub timestamp: i64,
}

/// One open receive-capable port.  It shares the library binding of the
/// device it was opened on, so the native image stays mapped while the
/// port exists, and it exclusively owns one native port handle, which
/// it closes exactly once.
#[derive(Debug)]
pub struct MidiOutputPort {
    library: Arc<AmidiLibrary>,
    raw_out: u64,
}

impl MidiOutputPort {
    /// Wrap the non-zero port handle that a successful open call
    /// produced, sharing the opening device's library binding.
    pub(crate) fn from_parts(library: Arc<AmidiLibrary>, raw_out: u64) -> (p: MidiOutputPort)
        requires
            raw_out != 0,
        ensures
            p.spec_library() == library,
            p.spec_handle() == raw_out,
            p.is_open(),
    {
        MidiOutputPort { library, raw_out }
    }

    /// The library binding this port shares with its device.
    pub closed spec fn spec_library(self) -> AmidiLibrary {
        *self.library
    }

    /// The native port handle; zero once the port is closed.
    pub closed spec fn spec_handle(self) -> u64 {
        self.raw_out
    }

    /// Whether the port still owns its native handle.
    pub open spec fn is_open(self) -> bool {
        self.spec_handle() != 0
    }

    /// The call that closes this port.
    pub open spec fn close_call(self) -> NativeCall {
        NativeCall {
            entry: EntryPoint::OutputPortClose,
            fn_addr: self.spec_library().table.addr_of(EntryPoint::OutputPortClose),
            target: self.spec_handle(),
        }
    }

    /// The library binding this port shares with its device.
    pub fn library(&self) -> (l: &Arc<AmidiLibrary>)
        ensures
            **l == self.spec_library(),
    {
        &self.library
    }

    /// The native port handle; zero once the port is closed.
    pub fn handle(&self) -> (h: u64)
        ensures
            h == self.spec_handle(),
    {
        self.raw_out
    }

    /// Interpret what the receive entry point reported after being
    /// called with this port's handle, the caller's buffer, and output
    /// slots for opcode, byte count and timestamp.  A negative return
    /// value is the error, surfaced verbatim; otherwise the three
    /// output slots make up the received event.  Zero bytes received is
    /// not an error — it reports that nothing was available.
    pub fn receive(&self, reported: isize, opcode: i32, bytes_received: usize, timestamp: i64)
        -> (r: Result<ReceivedEvent, isize>)
        requires
            self.is_open(),
        ensures
            reported < 0 ==> (r matches Err(e) && e == reported),
            reported >= 0 ==> (r matches Ok(ev) && ev == (ReceivedEvent {
                opcode,
                bytes_received,
                timestamp,
            })),
    {
        if reported < 0 {
            Err(reported)
        } else {
            Ok(ReceivedEvent { opcode, bytes_received, timestamp })
        }
    }

    /// Close the port.  On the first call the closing native call is
    /// returned, to be performed exactly once; the handle is given up
    /// at the same time, so any further call returns nothing and leaves
    /// the port as it is — closing twice is safe and causes no second
    /// native call.
    pub fn close(&mut self) -> (call: Option<NativeCall>)
        ensures
            !final(self).is_open(),
            final(self).spec_library() == old(self).spec_library(),
            old(self).is_open() ==> call == Some(old(self).close_call()),
            !old(self).is_open() ==> call is None && *final(self) == *old(self),
    {
        if self.raw_out != 0 {
            let call = NativeCall {
                entry: EntryPoint::OutputPortClose,
                fn_addr: self.library.table.addr(EntryPoint::OutputPortClose),
                target: self.raw_out,
            };
            self.raw_out = 0;
            Some(call)
        } else {
            None
        }
    }
}

} // verus!
