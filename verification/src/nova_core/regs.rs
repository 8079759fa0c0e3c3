//! Offsets and bits of the GPU registers the driver uses.
use vstd::prelude::*;

verus! {

/// Boot register: identifies the chip.
pub const PMC_BOOT_0: u32 = 0x000000;
/// Engine enable register.
pub const PMC_ENABLE: u32 = 0x000200;
/// Engine status register.
pub const PMC_STATUS: u32 = 0x000204;
/// Bit of PMC_STATUS that is set when the engines are idle.
pub const PMC_STATUS_IDLE: u32 = 1;

} // verus!
