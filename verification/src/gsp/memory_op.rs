//! Operations of a GSP memory message.
use vstd::prelude::*;

verus! {

pub const ALLOC: u8 = 0x01;
pub const FREE: u8 = 0x02;
pub const MAP: u8 = 0x03;
pub const UNMAP: u8 = 0x04;

} // verus!
