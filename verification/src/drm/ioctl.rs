//! Command numbers of the driver's ioctl interface.
use vstd::prelude::*;

verus! {

pub const GETPARAM: u32 = 0x00;
pub const GEM_CREATE: u32 = 0x01;
pub const GEM_INFO: u32 = 0x02;
pub const GEM_MMAP: u32 = 0x03;

} // verus!
