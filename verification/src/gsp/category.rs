//! Categories of GSP messages, held in a message header.
use vstd::prelude::*;

verus! {

pub const JOB_SUBMIT: u8 = 0x01;
pub const JOB_COMPLETE: u8 = 0x02;
pub const MEMORY: u8 = 0x03;
pub const MEMORY_RESPONSE: u8 = 0x04;
pub const CONTEXT: u8 = 0x05;
pub const SYNC: u8 = 0x06;
pub const ERROR: u8 = 0xFF;

} // verus!
