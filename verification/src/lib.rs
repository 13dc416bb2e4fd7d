//! A safe binding layer over a dynamically loaded native MIDI interface.
//!
//! The native image exports fourteen entry points by name.  This crate
//! verifies the lifecycle logic of the binding: symbol resolution is
//! all-or-nothing, each handle moves from open to closed exactly once,
//! teardown is idempotent, and every native status code is surfaced to
//! the caller verbatim.  The raw platform calls themselves happen
//! outside the crate; each operation here either interprets the outcome
//! a native call reported, or describes the call that must be made.

pub mod amidi_library;
pub mod entry_point;
pub mod midi_device;
pub mod midi_input_port;
pub mod midi_output_port;
pub mod mock_native;
pub mod native_call;
pub mod symbol_table;

pub use amidi_library::{AmidiLibrary, AmidiLibraryBuilder, ImageResolution, LoadError};
pub use entry_point::{EntryPoint, ENTRY_POINT_COUNT};
pub use midi_device::MidiDevice;
pub use midi_input_port::MidiInputPort;
pub use midi_output_port::{MidiOutputPort, ReceivedEvent};
pub use mock_native::{CallCounts, MockMessage, MockNative};
pub use native_call::NativeCall;
pub use symbol_table::SymbolTable;
