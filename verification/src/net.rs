//! Errors reported to the network stack.

use vstd::prelude::*;

verus! {

/// Errors of a network device operation.
#[derive(Debug, Clone, Copy, PartialEq, Eq, Structural)]
pub enum NetError {
    /// Nothing to receive yet.
    NotReady,
    /// No room to transmit.
    Busy,
    /// Memory for the packet could not be had.
    NoMemory,
}

} // verus!
