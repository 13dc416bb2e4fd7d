//! A send-capable port opened on a MIDI device.

use vstd::prelude::*;

use std::sync::Arc;

use crate::amidi_library::AmidiLibrary;
use crate::entry_point::EntryPoint;
use crate::native_call::NativeCall;

verus! {

/// One open send-capable port.  It shares the library binding of the
/// device it was opened on, so the native image stays mapped while the
/// port exists, and it exclusively owns one native port handle, which
/// it closes exactly once.
#[derive(Debug)]
pub struct MidiInputPort {
    library: Arc<AmidiLibrary>,
    raw_in: u64,
}

impl MidiInputPort {
    /// Wrap the non-zero port handle that a successful open call
    /// produced, sharing the opening device's library binding.
    pub(crate) fn from_parts(library: Arc<AmidiLibrary>, raw_in: u64) -> (p: MidiInputPort)
        requires
            raw_in != 0,
        ensures
            p.spec_library() == library,
            p.spec_handle() == raw_in,
            p.is_open(),
    {
        MidiInputPort { library, raw_in }
    }

    /// The library binding this port shares with its device.
    pub closed spec fn spec_library(self) -> AmidiLibrary {
        *self.library
    }

    /// The native port handle; zero once the port is closed.
    pub closed spec fn spec_handle(self) -> u64 {
        self.raw_in
    }

    /// Whether the port still owns its native handle.
    pub open spec fn is_open(self) -> bool {
        self.spec_handle() != 0
    }

    /// The call that closes this port.
    pub open spec fn close_call(self) -> NativeCall {
        NativeCall {
            entry: EntryPoint::InputPortClose,
            fn_addr: self.spec_library().table.addr_of(EntryPoint::InputPortClose),
            target: self.spec_handle(),
        }
    }

    /// The library binding this port shares with its device.
    pub fn library(&self) -> (l: &Arc<AmidiLibrary>)
        ensures
            **l == self.spec_library(),
    {
        &self.library
    }

    /// The native port handle; zero once the port is closed.
    pub fn handle(&self) -> (h: u64)
        ensures
            h == self.spec_handle(),
    {
        self.raw_in
    }

    /// Interpret what the send entry point reported after being called
    /// with this port's handle and `buffer`.  The native interface
    /// reports how many bytes it accepted — never more than it was
    /// handed — or a negative error code.  The error is surfaced
    /// verbatim, and then no bytes count as sent; a non-negative count
    /// is returned as is, and may be less than the whole buffer — the
    /// caller re-issues the remainder.
    pub fn send(&self, buffer: &[u8], reported: isize) -> (r: Result<usize, isize>)
        requires
            self.is_open(),
            reported >= 0 ==> reported <= buffer@.len(),
        ensures
            reported < 0 ==> (r matches Err(e) && e == reported),
            reported >= 0 ==> (r matches Ok(n) && n == reported && n <= buffer@.len()),
    {
        if reported < 0 {
            Err(reported)
        } else {
            Ok(reported as usize)
        }
    }

    /// Interpret what the send-with-timestamp entry point reported
    /// after being called with this port's handle, `buffer`, and the
    /// event timestamp.  The outcome reads exactly as for `send`.
    #[allow(unused_variables)]
    pub fn send_with_timestamp(&self, buffer: &[u8], timestamp: i64, reported: isize)
        -> (r: Result<usize, isize>)
        requires
            self.is_open(),
            reported >= 0 ==> reported <= buffer@.len(),
        ensures
            reported < 0 ==> (r matches Err(e) && e == reported),
            reported >= 0 ==> (r matches Ok(n) && n == reported && n <= buffer@.len()),
    {
        if reported < 0 {
            Err(reported)
        } else {
            Ok(reported as usize)
        }
    }

    /// Interpret what the flush entry point reported after being called
    /// with this port's handle: a non-zero status is the error,
    /// surfaced verbatim, and zero is success.
    pub fn send_flush(&self, status: i32) -> (r: Result<(), i32>)
        requires
            self.is_open(),
        ensures
            status != 0 ==> (r matches Err(e) && e == status),
            status == 0 ==> r is Ok,
    {
        if status != 0 {
            Err(status)
        } else {
            Ok(())
        }
    }

    /// Close the port.  On the first call the closing native call is
    /// returned, to be performed exactly once; the handle is given up
    /// at the same time, so any further call returns nothing and leaves
    /// the port as it is — closing twice is safe and causes no second
    /// native call.
    pub fn close(&mut self) -> (call: Option<NativeCall>)
        ensures
            !final(self).is_open(),
            final(self).spec_library() == old(self).spec_library(),
            old(self).is_open() ==> call == Some(old(self).close_call()),
            !old(self).is_open() ==> call is None && *final(self) == *old(self),
    {
        if self.raw_in != 0 {
            let call = NativeCall {
                entry: EntryPoint::InputPortClose,
                fn_addr: self.library.table.addr(EntryPoint::InputPortClose),
                target: self.raw_in,
            };
            self.raw_in = 0;
            Some(call)
        } else {
            None
        }
    }
}

} // verus!
