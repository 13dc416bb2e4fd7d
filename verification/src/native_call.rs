//! A description of one call into the native image.

use vstd::prelude::*;

use crate::entry_point::EntryPoint;

verus! {

/// One call that must be made into the native image: which entry point,
/// the address it was resolved to, and the native handle to pass as its
/// argument.  Values of this type are produced by the handle types as
/// the single permitted description of a pending native call; whoever
/// drives the native image performs the call exactly as described.
#[derive(Clone, Copy, PartialEq, Eq, Structural, Debug)]
pub struct NativeCall {
    /// The entry point to invoke.
    pub entry: EntryPoint,
    /// The address the entry point was resolved to when the image was
    /// loaded.
    pub fn_addr: u64,
    /// The native handle to pass to the entry point.
    pub target: u64,
}

} // verus!
