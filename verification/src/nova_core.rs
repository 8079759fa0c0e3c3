//! The hardware side of the driver: the register window, chipset
//! detection at probe time, firmware state and the reset sequence.
//!
//! Register reads and writes are performed by the caller; the functions here
//! decide which accesses are made and what their results mean.
use vstd::prelude::*;
use crate::chipset::{
    ChipsetSpec, chip_id_of, detection_matches, known_chipset, lemma_chip_id_round_trip,
    supported_device_table,
};
use crate::error::{Error, Result};
use crate::NVIDIA_VENDOR_ID;

pub mod regs;

verus! {

/// Whether a 32-bit register at `offset` lies inside a window of `size` bytes.
pub open spec fn access_fits(size: usize, offset: u32) -> bool {
    offset + 4 <= size
}

/// The BAR0 register window of the GPU: its base address and length.
pub struct Bar0 {
    base_addr: usize,
    size: usize,
}

impl Bar0 {
    /// The base address of the window.
    pub closed spec fn base(&self) -> usize {
        self.base_addr
    }

    /// The length of the window in bytes.
    pub closed spec fn len(&self) -> usize {
        self.size
    }

    /// A window of `size` bytes at `base_addr`.
    pub fn new(base_addr: usize, size: usize) -> (r: Self)
        ensures
            r.base() == base_addr,
            r.len() == size,
    {
        Self { base_addr, size }
    }

    /// The base address of the window.
    pub fn base_addr(&self) -> (r: usize)
        ensures
            r == self.base(),
    {
        self.base_addr
    }

    /// The length of the window in bytes.
    pub fn size(&self) -> (r: usize)
        ensures
            r == self.len(),
    {
        self.size
    }

    /// Checks a 32-bit register access at `offset`: `Ok` when it lies inside
    /// the window, `Err(Invalid)` otherwise.
    pub fn check_u32_access(&self, offset: u32) -> (r: Result<()>)
        ensures
            access_fits(self.len(), offset) ==> r == Ok::<(), Error>(()),
            !access_fits(self.len(), offset) ==> r == Err::<(), Error>(Error::Invalid),
    {
        if self.size < 4 || offset as usize > self.size - 4 {
            Err(Error::Invalid)
        } else {
            Ok(())
        }
    }
}

/// State of the GPU firmware.
pub struct Firmware {
    loaded: bool,
    version: u32,
}

impl Firmware {
    /// Whether firmware has been loaded.
    pub closed spec fn spec_loaded(&self) -> bool {
        self.loaded
    }

    /// The version of the loaded firmware, 0 when none is.
    pub closed spec fn spec_version(&self) -> u32 {
        self.version
    }

    /// No firmware loaded.
    pub fn new() -> (r: Self)
        ensures
            !r.spec_loaded(),
            r.spec_version() == 0,
    {
        Self { loaded: false, version: 0 }
    }

    /// Loads the firmware for `spec`; it is then reported as version 1.
    pub fn load(&mut self, spec: &ChipsetSpec) -> (r: Result<()>)
        ensures
            r == Ok::<(), Error>(()),
            final(self).spec_loaded(),
            final(self).spec_version() == 1,
    {
        self.loaded = true;
        self.version = 1;
        Ok(())
    }

    /// Whether firmware has been loaded.
    pub fn is_loaded(&self) -> (r: bool)
        ensures
            r == self.spec_loaded(),
    {
        self.loaded
    }

    /// The version of the loaded firmware, 0 when none is.
    pub fn version(&self) -> (r: u32)
        ensures
            r == self.spec_version(),
    {
        self.version
    }
}

impl Default for Firmware {
    fn default() -> (r: Self)
        ensures
            !r.spec_loaded(),
            r.spec_version() == 0,
    {
        Self::new()
    }
}

/// A register access the driver asks the caller to perform.
#[derive(Debug, Clone, Copy, PartialEq, Eq, Structural)]
pub enum RegisterAccess {
    Read { offset: u32 },
    Write { offset: u32, value: u32 },
}

/// Where a reset, or a wait for idle, stands after the access just performed.
#[derive(Debug, Clone, Copy, PartialEq, Eq, Structural)]
pub enum ResetPhase {
    /// The engines were disabled.
    Disabled,
    /// PMC_STATUS was read for the `attempt`-th time (from 0); when
    /// `enable_after`, the engines are enabled again once they are idle.
    Polling { attempt: u32, enable_after: bool },
    /// The engines were enabled again.
    Enabled,
}

/// What to do next: perform a register access, then report the phase it
/// leads to; or stop with a result.
#[derive(Debug, Clone, Copy)]
pub enum ResetAction {
    Access { access: RegisterAccess, then: ResetPhase },
    Finish(Result<()>),
}

/// How many times PMC_STATUS is read before giving up on idle.
pub const MAX_IDLE_POLLS: u32 = 1000;

/// First action of a reset on a window of `size` bytes: disable the engines.
pub open spec fn reset_first_action(size: usize) -> ResetAction {
    if access_fits(size, regs::PMC_ENABLE) {
        ResetAction::Access {
            access: RegisterAccess::Write { offset: regs::PMC_ENABLE, value: 0 },
            then: ResetPhase::Disabled,
        }
    } else {
        ResetAction::Finish(Err(Error::Invalid))
    }
}

/// First action of waiting for idle: read PMC_STATUS.
pub open spec fn poll_first_action(size: usize, enable_after: bool) -> ResetAction {
    if access_fits(size, regs::PMC_STATUS) {
        ResetAction::Access {
            access: RegisterAccess::Read { offset: regs::PMC_STATUS },
            then: ResetPhase::Polling { attempt: 0, enable_after },
        }
    } else {
        ResetAction::Finish(Err(Error::Invalid))
    }
}

/// Whether a PMC_STATUS value reports idle engines.
pub open spec fn status_idle(status: u32) -> bool {
    status & regs::PMC_STATUS_IDLE != 0
}

/// The action that follows `phase`, where `value` is what the read that led
/// to it returned.
pub open spec fn reset_next_action(size: usize, phase: ResetPhase, value: u32) -> ResetAction {
    match phase {
        ResetPhase::Disabled => poll_first_action(size, true),
        ResetPhase::Polling { attempt, enable_after } => {
            if status_idle(value) {
                if enable_after {
                    if access_fits(size, regs::PMC_ENABLE) {
                        ResetAction::Access {
                            access: RegisterAccess::Write {
                                offset: regs::PMC_ENABLE,
                                value: 0xffffffff,
                            },
                            then: ResetPhase::Enabled,
                        }
                    } else {
                        ResetAction::Finish(Err(Error::Invalid))
                    }
                } else {
                    ResetAction::Finish(Ok(()))
                }
            } else if attempt + 1 < MAX_IDLE_POLLS {
                ResetAction::Access {
                    access: RegisterAccess::Read { offset: regs::PMC_STATUS },
                    then: ResetPhase::Polling { attempt: (attempt + 1) as u32, enable_after },
                }
            } else {
                ResetAction::Finish(Err(Error::Timeout))
            }
        },
        ResetPhase::Enabled => ResetAction::Finish(Ok(())),
    }
}

/// A phase that a reset can be in: a poll count stays below the limit.
pub open spec fn phase_valid(phase: ResetPhase) -> bool {
    match phase {
        ResetPhase::Polling { attempt, .. } => attempt < MAX_IDLE_POLLS,
        _ => true,
    }
}

/// The chipset of a GPU that was brought up, or the error that stopped it.
pub open spec fn gpu_chipset(r: Result<Gpu>) -> Result<ChipsetSpec> {
    match r {
        Ok(g) => Ok(g.chipset()),
        Err(e) => Err(e),
    }
}

/// The GPU: its chipset, register window and firmware.
pub struct Gpu {
    spec: ChipsetSpec,
    bar: Bar0,
    fw: Firmware,
}

impl Gpu {
    /// The detected chipset.
    pub closed spec fn chipset(&self) -> ChipsetSpec {
        self.spec
    }

    /// The register window.
    pub closed spec fn window(&self) -> Bar0 {
        self.bar
    }

    /// The firmware state.
    pub closed spec fn fw_state(&self) -> Firmware {
        self.fw
    }

    /// Brings up the GPU behind `bar`, given the value read from its
    /// PMC_BOOT_0 register: detects the chipset and loads its firmware.
    /// `Err(Invalid)` when the window cannot hold PMC_BOOT_0 (the value is
    /// then not looked at), `Err(NoDevice)` for an unsupported chip.
    pub fn new(bar: Bar0, pmc_boot_0: u32) -> (r: Result<Self>)
        ensures
            !access_fits(bar.len(), regs::PMC_BOOT_0) ==> r == Err::<Self, Error>(Error::Invalid),
            access_fits(bar.len(), regs::PMC_BOOT_0) ==> {
                &&& detection_matches(pmc_boot_0, gpu_chipset(r))
                &&& r is Ok ==> {
                    &&& r->Ok_0.window() == bar
                    &&& r->Ok_0.fw_state().spec_loaded()
                    &&& r->Ok_0.fw_state().spec_version() == 1
                }
            },
    {
        bar.check_u32_access(regs::PMC_BOOT_0)?;
        let spec = match ChipsetSpec::detect_from_register(pmc_boot_0) {
            Ok(s) => s,
            Err(e) => return Err(e),
        };
        let mut fw = Firmware::new();
        fw.load(&spec)?;
        Ok(Self { spec, bar, fw })
    }

    /// The detected chipset.
    pub fn spec(&self) -> (r: &ChipsetSpec)
        ensures
            *r == self.chipset(),
    {
        &self.spec
    }

    /// The register window.
    pub fn bar(&self) -> (r: &Bar0)
        ensures
            *r == self.window(),
    {
        &self.bar
    }

    /// The firmware state.
    pub fn firmware(&self) -> (r: &Firmware)
        ensures
            *r == self.fw_state(),
    {
        &self.fw
    }

    /// The first action of a reset: disable the engines, or `Err(Invalid)`
    /// when PMC_ENABLE lies outside the window.
    pub fn reset_start(&self) -> (r: ResetAction)
        ensures
            r == reset_first_action(self.window().len()),
    {
        if self.bar.check_u32_access(regs::PMC_ENABLE).is_err() {
            return ResetAction::Finish(Err(Error::Invalid));
        }
        ResetAction::Access {
            access: RegisterAccess::Write { offset: regs::PMC_ENABLE, value: 0 },
            then: ResetPhase::Disabled,
        }
    }

    /// The first action of waiting for the engines to become idle: read
    /// PMC_STATUS, or `Err(Invalid)` when it lies outside the window.
    pub fn wait_for_idle_start(&self) -> (r: ResetAction)
        ensures
            r == poll_first_action(self.window().len(), false),
    {
        self.poll_start(false)
    }

    fn poll_start(&self, enable_after: bool) -> (r: ResetAction)
        ensures
            r == poll_first_action(self.window().len(), enable_after),
    {
        if self.bar.check_u32_access(regs::PMC_STATUS).is_err() {
            return ResetAction::Finish(Err(Error::Invalid));
        }
        ResetAction::Access {
            access: RegisterAccess::Read { offset: regs::PMC_STATUS },
            then: ResetPhase::Polling { attempt: 0, enable_after },
        }
    }

    /// The action that follows `phase`; `value` is what the read that led to
    /// it returned, and is not looked at after a write.
    ///
    /// A reset disables the engines, reads PMC_STATUS until it reports idle
    /// (at most MAX_IDLE_POLLS times, then `Err(Timeout)`), and enables the
    /// engines again.
    pub fn reset_continue(&self, phase: ResetPhase, value: u32) -> (r: ResetAction)
        requires
            phase_valid(phase),
        ensures
            r == reset_next_action(self.window().len(), phase, value),
    {
        match phase {
            ResetPhase::Disabled => self.poll_start(true),
            ResetPhase::Polling { attempt, enable_after } => {
                if value & regs::PMC_STATUS_IDLE != 0 {
                    if enable_after {
                        if self.bar.check_u32_access(regs::PMC_ENABLE).is_err() {
                            return ResetAction::Finish(Err(Error::Invalid));
                        }
                        ResetAction::Access {
                            access: RegisterAccess::Write {
                                offset: regs::PMC_ENABLE,
                                value: 0xffffffff,
                            },
                            then: ResetPhase::Enabled,
                        }
                    } else {
                        ResetAction::Finish(Ok(()))
                    }
                } else if attempt + 1 < MAX_IDLE_POLLS {
                    ResetAction::Access {
                        access: RegisterAccess::Read { offset: regs::PMC_STATUS },
                        then: ResetPhase::Polling { attempt: attempt + 1, enable_after },
                    }
                } else {
                    ResetAction::Finish(Err(Error::Timeout))
                }
            },
            ResetPhase::Enabled => ResetAction::Finish(Ok(())),
        }
    }
}

/// Every phase a reset step leads to is one it can continue from, and a
/// poll is only ever repeated with a count one higher: PMC_STATUS is read at
/// most MAX_IDLE_POLLS times.
pub proof fn lemma_reset_polls_bounded(size: usize, phase: ResetPhase, value: u32)
    requires
        phase_valid(phase),
    ensures
        reset_next_action(size, phase, value) matches ResetAction::Access { then, .. }
            ==> phase_valid(then),
        reset_next_action(size, phase, value) matches ResetAction::Access {
            then: ResetPhase::Polling { attempt: next, .. },
            ..
        } ==> (phase matches ResetPhase::Polling { attempt, .. } && next == attempt + 1)
            || (phase == ResetPhase::Disabled && next == 0),
        reset_first_action(size) matches ResetAction::Access { then, .. } ==> phase_valid(then),
        poll_first_action(size, false) matches ResetAction::Access { then, .. } ==> phase_valid(
            then,
        ),
{
}

/// The engines are enabled again only right after PMC_STATUS reported idle
/// during a reset, and a wait for idle ends with `Ok` only on an idle status.
pub proof fn lemma_enable_only_after_idle(size: usize, phase: ResetPhase, value: u32)
    ensures
        reset_next_action(size, phase, value) matches ResetAction::Access {
            access: RegisterAccess::Write { .. },
            ..
        } ==> (phase matches ResetPhase::Polling { enable_after: true, .. } && status_idle(
            value,
        )),
        reset_next_action(size, phase, value) == ResetAction::Finish(Ok(())) ==> (phase
            == ResetPhase::Enabled || (phase matches ResetPhase::Polling {
            enable_after: false,
            ..
        } && status_idle(value))),
{
}

/// Idleness is bit 0 of PMC_STATUS and nothing else: while polling, a
/// status with bit 0 set ends the polling (the engines are enabled again,
/// or the wait finishes `Ok`, or, if PMC_ENABLE lies outside the window,
/// `Err(Invalid)`), whatever the other bits; a status with bit 0 clear reads
/// PMC_STATUS again or, after the last poll, finishes `Err(Timeout)`.
pub proof fn lemma_idle_is_bit_zero(size: usize, attempt: u32, enable_after: bool, value: u32)
    requires
        attempt < MAX_IDLE_POLLS,
    ensures
        value & 1u32 == 1u32 ==> match reset_next_action(
            size,
            ResetPhase::Polling { attempt, enable_after },
            value,
        ) {
            ResetAction::Access { access, then } => enable_after && access
                == RegisterAccess::Write { offset: 0x200u32, value: 0xffff_ffffu32 } && then
                == ResetPhase::Enabled,
            ResetAction::Finish(r) => (!enable_after && r == Ok::<(), Error>(())) || (
            enable_after && r == Err::<(), Error>(Error::Invalid) && size < 0x204),
        },
        value & 1u32 == 0u32 ==> match reset_next_action(
            size,
            ResetPhase::Polling { attempt, enable_after },
            value,
        ) {
            ResetAction::Access { access, then } => access == RegisterAccess::Read {
                offset: 0x204u32,
            } && then == ResetPhase::Polling { attempt: (attempt + 1) as u32, enable_after }
                && attempt + 1 < 1000,
            ResetAction::Finish(r) => r == Err::<(), Error>(Error::Timeout) && attempt + 1 == 1000,
        },
{
    assert(value & 1u32 == 1u32 || value & 1u32 == 0u32) by (bit_vector);
}

/// The GPU core driver: owns the GPU once it has been brought up.
pub struct NovaCore {
    gpu: Gpu,
}

impl NovaCore {
    /// The GPU owned by the driver.
    pub closed spec fn spec_gpu(&self) -> Gpu {
        self.gpu
    }

    /// Brings up the GPU whose register window is `bar_size` bytes at
    /// `bar_addr`, given the value of its PMC_BOOT_0 register, as `Gpu::new`.
    pub fn new(bar_addr: usize, bar_size: usize, pmc_boot_0: u32) -> (r: Result<Self>)
        ensures
            !access_fits(bar_size, regs::PMC_BOOT_0) ==> r == Err::<Self, Error>(Error::Invalid),
            access_fits(bar_size, regs::PMC_BOOT_0) ==> {
                &&& detection_matches(pmc_boot_0, match r { Ok(c) => Ok(c.spec_gpu().chipset()), Err(e) => Err(e) })
                &&& r is Ok ==> {
                    &&& r->Ok_0.spec_gpu().window().base() == bar_addr
                    &&& r->Ok_0.spec_gpu().window().len() == bar_size
                    &&& r->Ok_0.spec_gpu().fw_state().spec_loaded()
                    &&& r->Ok_0.spec_gpu().fw_state().spec_version() == 1
                }
            },
    {
        let bar = Bar0::new(bar_addr, bar_size);
        let gpu = Gpu::new(bar, pmc_boot_0)?;
        Ok(Self { gpu })
    }

    /// The GPU.
    pub fn gpu(&self) -> (r: &Gpu)
        ensures
            *r == self.spec_gpu(),
    {
        &self.gpu
    }

    /// The GPU, for changing.
    pub fn gpu_mut(&mut self) -> (r: &mut Gpu)
        ensures
            *r == old(self).spec_gpu(),
            final(self).spec_gpu() == *final(r),
    {
        &mut self.gpu
    }
}

/// A PCI vendor and device id pair the driver binds to.
#[derive(Debug, Clone, Copy)]
pub struct PciDeviceId {
    pub vendor: u16,
    pub device: u16,
}

impl PciDeviceId {
    /// The id pair `(vendor, device)`.
    pub fn new(vendor: u16, device: u16) -> (r: Self)
        ensures
            r.vendor == vendor,
            r.device == device,
    {
        Self { vendor, device }
    }
}

/// The PCI device ids in the driver's match table, in order.
pub open spec fn pci_device_ids() -> Seq<u16> {
    seq![
        0x1e02u16, 0x1e04u16, 0x1e07u16, 0x1e82u16, 0x1e84u16,
        0x2200u16, 0x2204u16, 0x2206u16, 0x2208u16, 0x2216u16, 0x2220u16,
        0x2684u16, 0x2704u16, 0x2782u16, 0x2820u16,
    ]
}

/// The PCI match table: NVIDIA's vendor id with each device id of
/// `pci_device_ids()`.
pub fn generate_pci_table() -> (r: [PciDeviceId; 15])
    ensures
        r@.len() == pci_device_ids().len(),
        forall|i: int|
            0 <= i < r@.len() ==> (#[trigger] r@[i]).vendor == NVIDIA_VENDOR_ID && r@[i].device
                == pci_device_ids()[i],
{
    [
        PciDeviceId::new(NVIDIA_VENDOR_ID, 0x1e02),
        PciDeviceId::new(NVIDIA_VENDOR_ID, 0x1e04),
        PciDeviceId::new(NVIDIA_VENDOR_ID, 0x1e07),
        PciDeviceId::new(NVIDIA_VENDOR_ID, 0x1e82),
        PciDeviceId::new(NVIDIA_VENDOR_ID, 0x1e84),
        PciDeviceId::new(NVIDIA_VENDOR_ID, 0x2200),
        PciDeviceId::new(NVIDIA_VENDOR_ID, 0x2204),
        PciDeviceId::new(NVIDIA_VENDOR_ID, 0x2206),
        PciDeviceId::new(NVIDIA_VENDOR_ID, 0x2208),
        PciDeviceId::new(NVIDIA_VENDOR_ID, 0x2216),
        PciDeviceId::new(NVIDIA_VENDOR_ID, 0x2220),
        PciDeviceId::new(NVIDIA_VENDOR_ID, 0x2684),
        PciDeviceId::new(NVIDIA_VENDOR_ID, 0x2704),
        PciDeviceId::new(NVIDIA_VENDOR_ID, 0x2782),
        PciDeviceId::new(NVIDIA_VENDOR_ID, 0x2820),
    ]
}

/// Every device of the PCI match table is one that detection reports: some
/// PMC_BOOT_0 value detects as a chipset with that PCI device id.
pub proof fn lemma_pci_devices_are_detected(i: int)
    requires
        0 <= i < pci_device_ids().len(),
    ensures
        exists|pmc_boot_0: u32|
            #![trigger chip_id_of(pmc_boot_0)]
            {
                &&& known_chipset(chip_id_of(pmc_boot_0)) is Some
                &&& known_chipset(chip_id_of(pmc_boot_0))->Some_0.1 == pci_device_ids()[i]
            },
{
    let ids = seq![
        0x162u16, 0x164u16, 0x166u16, 0x167u16, 0x168u16,
        0x170u16, 0x172u16, 0x173u16, 0x174u16, 0x176u16, 0x177u16,
        0x188u16, 0x189u16, 0x190u16, 0x192u16,
    ];
    let id = ids[i];
    lemma_chip_id_round_trip(id);
    let reg = ((id as u32) << 20u32) as u32;
    assert(chip_id_of(reg) == id);
}

/// The PCI match table lists exactly the supported devices, in the same
/// order: every supported device can be bound.
pub proof fn lemma_pci_table_is_supported_list()
    ensures
        pci_device_ids().len() == supported_device_table().len(),
        forall|i: int|
            0 <= i < pci_device_ids().len() ==> #[trigger] pci_device_ids()[i]
                == supported_device_table()[i].0,
{
}

/// Every chipset detection reports, but AD106 (which is not on the
/// supported list), has its PCI device id in the match table.
pub proof fn lemma_detected_devices_in_pci_table(chip_id: u16)
    requires
        known_chipset(chip_id) is Some,
        known_chipset(chip_id)->Some_0.1 != 0x2786u16,
    ensures
        exists|i: int|
            0 <= i < pci_device_ids().len() && #[trigger] pci_device_ids()[i] == known_chipset(
                chip_id,
            )->Some_0.1,
{
    let t = pci_device_ids();
    assert(t[0] == 0x1e02u16 && t[1] == 0x1e04u16 && t[2] == 0x1e07u16 && t[3] == 0x1e82u16
        && t[4] == 0x1e84u16 && t[5] == 0x2200u16 && t[6] == 0x2204u16 && t[7] == 0x2206u16
        && t[8] == 0x2208u16 && t[9] == 0x2216u16 && t[10] == 0x2220u16 && t[11] == 0x2684u16
        && t[12] == 0x2704u16 && t[13] == 0x2782u16 && t[14] == 0x2820u16);
}

} // verus!
