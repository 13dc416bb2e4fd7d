//! The table of resolved entry-point addresses.

use vstd::prelude::*;

use crate::entry_point::{EntryPoint, ENTRY_POINT_COUNT};

verus! {

/// The addresses the platform loader resolved for the fourteen entry
/// points of the native image, one field per entry point.  A table is
/// only ever built with every address present (non-zero): resolution is
/// all-or-nothing, so no partially filled table can be observed.
#[derive(Clone, Copy, PartialEq, Eq, Structural, Debug)]
pub struct SymbolTable {
    amidi_device_from_java: u64,
    amidi_device_release: u64,
    amidi_device_get_type: u64,
    amidi_device_get_num_input_ports: u64,
    amidi_device_get_num_output_ports: u64,
    amidi_device_get_default_protocol: u64,
    amidi_output_port_open: u64,
    amidi_output_port_close: u64,
    amidi_output_port_receive: u64,
    amidi_input_port_open: u64,
    amidi_input_port_send: u64,
    amidi_input_port_send_with_timestamp: u64,
    amidi_input_port_send_flush: u64,
    amidi_input_port_close: u64,
}

impl SymbolTable {
    /// The resolved address of one entry point.
    pub closed spec fn addr_of(self, e: EntryPoint) -> u64 {
        match e {
            EntryPoint::DeviceFromJava => self.amidi_device_from_java,
            EntryPoint::DeviceRelease => self.amidi_device_release,
            EntryPoint::DeviceGetType => self.amidi_device_get_type,
            EntryPoint::DeviceGetNumInputPorts => self.amidi_device_get_num_input_ports,
            EntryPoint::DeviceGetNumOutputPorts => self.amidi_device_get_num_output_ports,
            EntryPoint::DeviceGetDefaultProtocol => self.amidi_device_get_default_protocol,
            EntryPoint::OutputPortOpen => self.amidi_output_port_open,
            EntryPoint::OutputPortClose => self.amidi_output_port_close,
            EntryPoint::OutputPortReceive => self.amidi_output_port_receive,
            EntryPoint::InputPortOpen => self.amidi_input_port_open,
            EntryPoint::InputPortSend => self.amidi_input_port_send,
            EntryPoint::InputPortSendWithTimestamp => self.amidi_input_port_send_with_timestamp,
            EntryPoint::InputPortSendFlush => self.amidi_input_port_send_flush,
            EntryPoint::InputPortClose => self.amidi_input_port_close,
        }
    }

    /// Every entry point has a resolved, non-zero address.
    pub open spec fn fully_resolved(self) -> bool {
        forall|e: EntryPoint| self.addr_of(e) != 0
    }

    /// The resolved address of one entry point, as a run-time value.
    pub fn addr(&self, e: EntryPoint) -> (a: u64)
        ensures
            a == self.addr_of(e),
    {
        match e {
            EntryPoint::DeviceFromJava => self.amidi_device_from_java,
            EntryPoint::DeviceRelease => self.amidi_device_release,
            EntryPoint::DeviceGetType => self.amidi_device_get_type,
            EntryPoint::DeviceGetNumInputPorts => self.amidi_device_get_num_input_ports,
            EntryPoint::DeviceGetNumOutputPorts => self.amidi_device_get_num_output_ports,
            EntryPoint::DeviceGetDefaultProtocol => self.amidi_device_get_default_protocol,
            EntryPoint::OutputPortOpen => self.amidi_output_port_open,
            EntryPoint::OutputPortClose => self.amidi_output_port_close,
            EntryPoint::OutputPortReceive => self.amidi_output_port_receive,
            EntryPoint::InputPortOpen => self.amidi_input_port_open,
            EntryPoint::InputPortSend => self.amidi_input_port_send,
            EntryPoint::InputPortSendWithTimestamp => self.amidi_input_port_send_with_timestamp,
            EntryPoint::InputPortSendFlush => self.amidi_input_port_send_flush,
            EntryPoint::InputPortClose => self.amidi_input_port_close,
        }
    }

    /// Build the table from the lookup results the platform loader
    /// reported, one per entry point in resolution order; address zero
    /// records that the name was absent from the image.  Either every
    /// name resolved and the whole table is returned, or the first
    /// entry point that failed to resolve is reported and no table
    /// exists at all.
    pub fn resolve(lookups: &Vec<u64>) -> (r: Result<SymbolTable, EntryPoint>)
        requires
            lookups@.len() == ENTRY_POINT_COUNT,
        ensures
            match r {
                Ok(table) => {
                    &&& forall|e: EntryPoint| table.addr_of(e) == lookups@[e.index()]
                    &&& table.fully_resolved()
                },
                Err(missing) => {
                    &&& lookups@[missing.index()] == 0
                    &&& forall|i: int| 0 <= i < missing.index() ==> lookups@[i] != 0
                },
            },
            (r is Ok) <==> (forall|i: int| 0 <= i < ENTRY_POINT_COUNT ==> lookups@[i] != 0),
    {
        let mut i: usize = 0;
        while i < ENTRY_POINT_COUNT
            invariant
                i <= ENTRY_POINT_COUNT,
                lookups@.len() == ENTRY_POINT_COUNT,
                forall|j: int| 0 <= j < i ==> lookups@[j] != 0,
            decreases ENTRY_POINT_COUNT - i,
        {
            if lookups[i] == 0 {
                return Err(EntryPoint::from_index(i));
            }
            i = i + 1;
        }
        let table = SymbolTable {
            amidi_device_from_java: lookups[0],
            amidi_device_release: lookups[1],
            amidi_device_get_type: lookups[2],
            amidi_device_get_num_input_ports: lookups[3],
            amidi_device_get_num_output_ports: lookups[4],
            amidi_device_get_default_protocol: lookups[5],
            amidi_output_port_open: lookups[6],
            amidi_output_port_close: lookups[7],
            amidi_output_port_receive: lookups[8],
            amidi_input_port_open: lookups[9],
            amidi_input_port_send: lookups[10],
            amidi_input_port_send_with_timestamp: lookups[11],
            amidi_input_port_send_flush: lookups[12],
            amidi_input_port_close: lookups[13],
        };
        Ok(table)
    }
}

} // verus!
