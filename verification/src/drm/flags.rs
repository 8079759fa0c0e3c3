//! Flags of an ioctl entry.
use vstd::prelude::*;

verus! {

pub const RENDER_ALLOW: u32 = 1;
pub const AUTH: u32 = 2;
pub const UNLOCKED: u32 = 4;

} // verus!
