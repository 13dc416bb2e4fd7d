//! The fixed set of entry points that the native MIDI image exports.

use vstd::prelude::*;

verus! {

/// How many entry points the native image must export.
pub const ENTRY_POINT_COUNT: usize = 14;

/// One named entry point of the native MIDI interface, in resolution
/// order.  Loading the image succeeds only when every one of these
/// resolves by its exact exported name.
#[derive(Clone, Copy, PartialEq, Eq, Structural, Debug)]
pub enum EntryPoint {
    DeviceFromJava,
    DeviceRelease,
    DeviceGetType,
    DeviceGetNumInputPorts,
    DeviceGetNumOutputPorts,
    DeviceGetDefaultProtocol,
    OutputPortOpen,
    OutputPortClose,
    OutputPortReceive,
    InputPortOpen,
    InputPortSend,
    InputPortSendWithTimestamp,
    InputPortSendFlush,
    InputPortClose,
}

impl EntryPoint {
    /// Position of this entry point in the fixed resolution order.
    pub open spec fn index(self) -> int {
        match self {
            EntryPoint::DeviceFromJava => 0,
            EntryPoint::DeviceRelease => 1,
            EntryPoint::DeviceGetType => 2,
            EntryPoint::DeviceGetNumInputPorts => 3,
            EntryPoint::DeviceGetNumOutputPorts => 4,
            EntryPoint::DeviceGetDefaultProtocol => 5,
            EntryPoint::OutputPortOpen => 6,
            EntryPoint::OutputPortClose => 7,
            EntryPoint::OutputPortReceive => 8,
            EntryPoint::InputPortOpen => 9,
            EntryPoint::InputPortSend => 10,
            EntryPoint::InputPortSendWithTimestamp => 11,
            EntryPoint::InputPortSendFlush => 12,
            EntryPoint::InputPortClose => 13,
        }
    }

    /// Position of this entry point, as a run-time value.
    pub fn index_value(&self) -> (i: usize)
        ensures
            i == self.index(),
    {
        match self {
            EntryPoint::DeviceFromJava => 0,
            EntryPoint::DeviceRelease => 1,
            EntryPoint::DeviceGetType => 2,
            EntryPoint::DeviceGetNumInputPorts => 3,
            EntryPoint::DeviceGetNumOutputPorts => 4,
            EntryPoint::DeviceGetDefaultProtocol => 5,
            EntryPoint::OutputPortOpen => 6,
            EntryPoint::OutputPortClose => 7,
            EntryPoint::OutputPortReceive => 8,
            EntryPoint::InputPortOpen => 9,
            EntryPoint::InputPortSend => 10,
            EntryPoint::InputPortSendWithTimestamp => 11,
            EntryPoint::InputPortSendFlush => 12,
            EntryPoint::InputPortClose => 13,
        }
    }

    /// The entry point standing at position `i` of the resolution order.
    pub fn from_index(i: usize) -> (e: EntryPoint)
        requires
            i < ENTRY_POINT_COUNT,
        ensures
            e.index() == i,
    {
        if i == 0 {
            EntryPoint::DeviceFromJava
        } else if i == 1 {
            EntryPoint::DeviceRelease
        } else if i == 2 {
            EntryPoint::DeviceGetType
        } else if i == 3 {
            EntryPoint::DeviceGetNumInputPorts
        } else if i == 4 {
            EntryPoint::DeviceGetNumOutputPorts
        } else if i == 5 {
            EntryPoint::DeviceGetDefaultProtocol
        } else if i == 6 {
            EntryPoint::OutputPortOpen
        } else if i == 7 {
            EntryPoint::OutputPortClose
        } else if i == 8 {
            EntryPoint::OutputPortReceive
        } else if i == 9 {
            EntryPoint::InputPortOpen
        } else if i == 10 {
            EntryPoint::InputPortSend
        } else if i == 11 {
            EntryPoint::InputPortSendWithTimestamp
        } else if i == 12 {
            EntryPoint::InputPortSendFlush
        } else {
            EntryPoint::InputPortClose
        }
    }

    /// The exact name under which the native image exports this entry
    /// point.
    pub open spec fn spec_symbol_name(self) -> Seq<char> {
        match self {
            EntryPoint::DeviceFromJava => "AMidiDevice_fromJava"@,
            EntryPoint::DeviceRelease => "AMidiDevice_release"@,
            EntryPoint::DeviceGetType => "AMidiDevice_getType"@,
            EntryPoint::DeviceGetNumInputPorts => "AMidiDevice_getNumInputPorts"@,
            EntryPoint::DeviceGetNumOutputPorts => "AMidiDevice_getNumOutputPorts"@,
            EntryPoint::DeviceGetDefaultProtocol => "AMidiDevice_getDefaultProtocol"@,
            EntryPoint::OutputPortOpen => "AMidiOutputPort_open"@,
            EntryPoint::OutputPortClose => "AMidiOutputPort_close"@,
            EntryPoint::OutputPortReceive => "AMidiOutputPort_receive"@,
            EntryPoint::InputPortOpen => "AMidiInputPort_open"@,
            EntryPoint::InputPortSend => "AMidiInputPort_send"@,
            EntryPoint::InputPortSendWithTimestamp => "AMidiInputPort_sendWithTimestamp"@,
            EntryPoint::InputPortSendFlush => "AMidiInputPort_sendFlush"@,
            EntryPoint::InputPortClose => "AMidiInputPort_close"@,
        }
    }

    /// The exported name of this entry point, for the platform's symbol
    /// lookup.
    pub fn symbol_name(&self) -> (name: &'static str)
        ensures
            name@ == self.spec_symbol_name(),
    {
        match self {
            EntryPoint::DeviceFromJava => "AMidiDevice_fromJava",
            EntryPoint::DeviceRelease => "AMidiDevice_release",
            EntryPoint::DeviceGetType => "AMidiDevice_getType",
            EntryPoint::DeviceGetNumInputPorts => "AMidiDevice_getNumInputPorts",
            EntryPoint::DeviceGetNumOutputPorts => "AMidiDevice_getNumOutputPorts",
            EntryPoint::DeviceGetDefaultProtocol => "AMidiDevice_getDefaultProtocol",
            EntryPoint::OutputPortOpen => "AMidiOutputPort_open",
            EntryPoint::OutputPortClose => "AMidiOutputPort_close",
            EntryPoint::OutputPortReceive => "AMidiOutputPort_receive",
            EntryPoint::InputPortOpen => "AMidiInputPort_open",
            EntryPoint::InputPortSend => "AMidiInputPort_send",
            EntryPoint::InputPortSendWithTimestamp => "AMidiInputPort_sendWithTimestamp",
            EntryPoint::InputPortSendFlush => "AMidiInputPort_sendFlush",
            EntryPoint::InputPortClose => "AMidiInputPort_close",
        }
    }
}

} // verus!
