//! Offsets of the GSP mailbox registers.
use vstd::prelude::*;

verus! {

/// Written to tell the GSP that the queue holds new messages.
pub const DOORBELL: u32 = 0x00;
/// Status of the GSP.
pub const STATUS: u32 = 0x04;

} // verus!
