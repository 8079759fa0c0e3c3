//! Driver logic for NVIDIA GPUs of the Turing, Ampere and Ada generations:
//! chipset detection, the DRM request handlers, GEM object bookkeeping and
//! the GSP message queue, each stated and proved against a contract.
use vstd::prelude::*;

pub mod chipset;
pub mod nova_core;
pub mod drm;
pub mod error;
pub mod gsp;
pub mod memory;
pub mod wire;

pub use chipset::{ChipsetSpec, GpuGeneration};
pub use error::{Error, Result};

verus! {

/// PCI vendor identifier of NVIDIA.
pub const NVIDIA_VENDOR_ID: u16 = 0x10de;

} // verus!
