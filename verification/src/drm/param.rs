//! Parameters user space can query with GETPARAM.
use vstd::prelude::*;

verus! {

pub const CHIPSET_ID: u32 = 0x00;
pub const VRAM_SIZE: u32 = 0x01;
pub const DRIVER_VERSION: u32 = 0x02;
pub const FIRMWARE_VERSION: u32 = 0x03;

} // verus!
