use vstd::prelude::*;
use crate::error::{Error, Result};

verus! {

/// Architecture generation of a supported GPU.
#[derive(Debug, Clone, Copy, PartialEq, Eq, Structural)]
pub enum GpuGeneration {
    Turing,
    Ampere,
    Ada,
}

/// Identity of a detected chipset: its generation, PCI device id and name.
#[derive(Debug, Clone, Copy, PartialEq, Eq)]
pub struct ChipsetSpec {
    pub generation: GpuGeneration,
    pub device_id: u16,
    pub name: &'static str,
}

/// The 12-bit chip id held in bits 20..31 of the PMC_BOOT_0 register.
pub open spec fn chip_id_of(pmc_boot_0: u32) -> u16 {
    ((pmc_boot_0 >> 20) & 0xfff) as u16
}

/// The chipset a chip id stands for: generation, PCI device id and name,
/// or `None` for a chip id the driver does not support.
pub open spec fn known_chipset(chip_id: u16) -> Option<(GpuGeneration, u16, Seq<char>)> {
    if chip_id == 0x162 {
        Some((GpuGeneration::Turing, 0x1e02u16, "TU102"@))
    } else if chip_id == 0x164 {
        Some((GpuGeneration::Turing, 0x1e04u16, "TU104"@))
    } else if chip_id == 0x166 {
        Some((GpuGeneration::Turing, 0x1e07u16, "TU106"@))
    } else if chip_id == 0x167 {
        Some((GpuGeneration::Turing, 0x1e82u16, "TU117"@))
    } else if chip_id == 0x168 {
        Some((GpuGeneration::Turing, 0x1e84u16, "TU116"@))
    } else if chip_id == 0x170 {
        Some((GpuGeneration::Ampere, 0x2200u16, "GA100"@))
    } else if chip_id == 0x172 {
        Some((GpuGeneration::Ampere, 0x2204u16, "GA102"@))
    } else if chip_id == 0x173 {
        Some((GpuGeneration::Ampere, 0x2206u16, "GA103"@))
    } else if chip_id == 0x174 {
        Some((GpuGeneration::Ampere, 0x2208u16, "GA104"@))
    } else if chip_id == 0x176 {
        Some((GpuGeneration::Ampere, 0x2216u16, "GA106"@))
    } else if chip_id == 0x177 {
        Some((GpuGeneration::Ampere, 0x2220u16, "GA107"@))
    } else if chip_id == 0x188 {
        Some((GpuGeneration::Ada, 0x2684u16, "AD102"@))
    } else if chip_id == 0x189 {
        Some((GpuGeneration::Ada, 0x2704u16, "AD103"@))
    } else if chip_id == 0x190 {
        Some((GpuGeneration::Ada, 0x2782u16, "AD104"@))
    } else if chip_id == 0x191 {
        Some((GpuGeneration::Ada, 0x2786u16, "AD106"@))
    } else if chip_id == 0x192 {
        Some((GpuGeneration::Ada, 0x2820u16, "AD107"@))
    } else {
        None
    }
}

/// A chipset value matches the triple (generation, device id, name).
pub open spec fn spec_matches(spec: ChipsetSpec, known: (GpuGeneration, u16, Seq<char>)) -> bool {
    &&& spec.generation == known.0
    &&& spec.device_id == known.1
    &&& spec.name@ == known.2
}

/// What detection reports for a PMC_BOOT_0 value.
pub open spec fn detection_matches(pmc_boot_0: u32, r: Result<ChipsetSpec>) -> bool {
    match known_chipset(chip_id_of(pmc_boot_0)) {
        Some(known) => r is Ok && spec_matches(r->Ok_0, known),
        None => r == Err::<ChipsetSpec, Error>(Error::NoDevice),
    }
}

impl ChipsetSpec {
    /// Builds a chipset description from its parts.
    pub fn new(generation: GpuGeneration, device_id: u16, name: &'static str) -> (r: Self)
        ensures
            r.generation == generation,
            r.device_id == device_id,
            r.name == name,
    {
        Self { generation, device_id, name }
    }

    /// Identifies the chipset from the value of the PMC_BOOT_0 register;
    /// `Err(NoDevice)` for a chip the driver does not support.
    pub fn detect_from_register(pmc_boot_0: u32) -> (r: Result<Self>)
        ensures
            detection_matches(pmc_boot_0, r),
    {
        let device_id: u16 = ((pmc_boot_0 >> 20) & 0xfff) as u16;
        proof {
            reveal_strlit("TU102");
            reveal_strlit("TU104");
            reveal_strlit("TU106");
            reveal_strlit("TU117");
            reveal_strlit("TU116");
            reveal_strlit("GA100");
            reveal_strlit("GA102");
            reveal_strlit("GA103");
            reveal_strlit("GA104");
            reveal_strlit("GA106");
            reveal_strlit("GA107");
            reveal_strlit("AD102");
            reveal_strlit("AD103");
            reveal_strlit("AD104");
            reveal_strlit("AD106");
            reveal_strlit("AD107");
        }
        match device_id {
            0x162 => Ok(Self::new(GpuGeneration::Turing, 0x1e02, "TU102")),
            0x164 => Ok(Self::new(GpuGeneration::Turing, 0x1e04, "TU104")),
            0x166 => Ok(Self::new(GpuGeneration::Turing, 0x1e07, "TU106")),
            0x167 => Ok(Self::new(GpuGeneration::Turing, 0x1e82, "TU117")),
            0x168 => Ok(Self::new(GpuGeneration::Turing, 0x1e84, "TU116")),

            0x170 => Ok(Self::new(GpuGeneration::Ampere, 0x2200, "GA100")),
            0x172 => Ok(Self::new(GpuGeneration::Ampere, 0x2204, "GA102")),
            0x173 => Ok(Self::new(GpuGeneration::Ampere, 0x2206, "GA103")),
            0x174 => Ok(Self::new(GpuGeneration::Ampere, 0x2208, "GA104")),
            0x176 => Ok(Self::new(GpuGeneration::Ampere, 0x2216, "GA106")),
            0x177 => Ok(Self::new(GpuGeneration::Ampere, 0x2220, "GA107")),

            0x188 => Ok(Self::new(GpuGeneration::Ada, 0x2684, "AD102")),
            0x189 => Ok(Self::new(GpuGeneration::Ada, 0x2704, "AD103")),
            0x190 => Ok(Self::new(GpuGeneration::Ada, 0x2782, "AD104")),
            0x191 => Ok(Self::new(GpuGeneration::Ada, 0x2786, "AD106")),
            0x192 => Ok(Self::new(GpuGeneration::Ada, 0x2820, "AD107")),

            _ => Err(Error::NoDevice),
        }
    }
}

/// The devices the driver lists as supported: PCI device id and chipset name.
pub open spec fn supported_device_table() -> Seq<(u16, Seq<char>)> {
    seq![
        (0x1e02u16, "TU102"@),
        (0x1e04u16, "TU104"@),
        (0x1e07u16, "TU106"@),
        (0x1e82u16, "TU117"@),
        (0x1e84u16, "TU116"@),
        (0x2200u16, "GA100"@),
        (0x2204u16, "GA102"@),
        (0x2206u16, "GA103"@),
        (0x2208u16, "GA104"@),
        (0x2216u16, "GA106"@),
        (0x2220u16, "GA107"@),
        (0x2684u16, "AD102"@),
        (0x2704u16, "AD103"@),
        (0x2782u16, "AD104"@),
        (0x2820u16, "AD107"@),
    ]
}

/// The list of supported devices, as (PCI device id, chipset name).
pub fn supported_devices() -> (r: [(u16, &'static str); 15])
    ensures
        r@.len() == supported_device_table().len(),
        forall|i: int|
            0 <= i < r@.len() ==> {
                &&& (#[trigger] r@[i]).0 == supported_device_table()[i].0
                &&& r@[i].1@ == supported_device_table()[i].1
            },
{
    let r = [
        (0x1e02, "TU102"),
        (0x1e04, "TU104"),
        (0x1e07, "TU106"),
        (0x1e82, "TU117"),
        (0x1e84, "TU116"),
        (0x2200, "GA100"),
        (0x2204, "GA102"),
        (0x2206, "GA103"),
        (0x2208, "GA104"),
        (0x2216, "GA106"),
        (0x2220, "GA107"),
        (0x2684, "AD102"),
        (0x2704, "AD103"),
        (0x2782, "AD104"),
        (0x2820, "AD107"),
    ];
    proof {
        reveal_strlit("TU102");
        reveal_strlit("TU104");
        reveal_strlit("TU106");
        reveal_strlit("TU117");
        reveal_strlit("TU116");
        reveal_strlit("GA100");
        reveal_strlit("GA102");
        reveal_strlit("GA103");
        reveal_strlit("GA104");
        reveal_strlit("GA106");
        reveal_strlit("GA107");
        reveal_strlit("AD102");
        reveal_strlit("AD103");
        reveal_strlit("AD104");
        reveal_strlit("AD107");
    }
    r
}

/// A 12-bit chip id placed in bits 20..31 of PMC_BOOT_0 is read back as
/// that chip id.
pub proof fn lemma_chip_id_round_trip(id: u16)
    requires
        id < 0x1000,
    ensures
        chip_id_of(((id as u32) << 20u32) as u32) == id,
{
    assert((((((id as u32) << 20u32) as u32) >> 20u32) & 0xfffu32) as u16 == id) by (bit_vector)
        requires
            id < 0x1000u16,
    ;
}

/// Every device the driver lists as supported is one that detection
/// reports: some PMC_BOOT_0 value detects as exactly that device id and name.
pub proof fn lemma_supported_devices_are_detected(i: int)
    requires
        0 <= i < supported_device_table().len(),
    ensures
        exists|pmc_boot_0: u32|
            #![trigger chip_id_of(pmc_boot_0)]
            {
                &&& known_chipset(chip_id_of(pmc_boot_0)) is Some
                &&& known_chipset(chip_id_of(pmc_boot_0))->Some_0.1
                    == supported_device_table()[i].0
                &&& known_chipset(chip_id_of(pmc_boot_0))->Some_0.2
                    == supported_device_table()[i].1
            },
{
    let ids = seq![
        0x162u16, 0x164u16, 0x166u16, 0x167u16, 0x168u16,
        0x170u16, 0x172u16, 0x173u16, 0x174u16, 0x176u16, 0x177u16,
        0x188u16, 0x189u16, 0x190u16, 0x192u16,
    ];
    let id = ids[i];
    lemma_chip_id_round_trip(id);
    let reg = ((id as u32) << 20u32) as u32;
    assert(chip_id_of(reg) == id);
}

/// Detection looks only at bits 20..31: two register values that agree
/// there detect as the same chipset.
pub proof fn lemma_detection_depends_on_chip_bits(a: u32, b: u32)
    requires
        a >> 20u32 == b >> 20u32,
    ensures
        known_chipset(chip_id_of(a)) == known_chipset(chip_id_of(b)),
{
}

/// Detection knows exactly sixteen chip ids, and each of them stands for a
/// different PCI device id.
pub proof fn lemma_known_chip_ids(chip_id: u16)
    ensures
        known_chipset(chip_id) is Some <==> (chip_id == 0x162 || chip_id == 0x164 || chip_id
            == 0x166 || chip_id == 0x167 || chip_id == 0x168 || chip_id == 0x170 || chip_id
            == 0x172 || chip_id == 0x173 || chip_id == 0x174 || chip_id == 0x176 || chip_id
            == 0x177 || chip_id == 0x188 || chip_id == 0x189 || chip_id == 0x190 || chip_id
            == 0x191 || chip_id == 0x192),
{
}

/// Two chip ids that detection reports with the same PCI device id are the
/// same chip id: no other chip is bound as a known one.
pub proof fn lemma_device_id_identifies_chip(a: u16, b: u16)
    requires
        known_chipset(a) is Some,
        known_chipset(b) is Some,
        known_chipset(a)->Some_0.1 == known_chipset(b)->Some_0.1,
    ensures
        a == b,
{
}

/// Detection succeeds exactly on the registers whose bits 20..31 hold one of
/// the sixteen known chip ids, and fails with `NoDevice` on every other.
pub proof fn lemma_detection_succeeds_exactly_on_known_ids(pmc_boot_0: u32, r: Result<ChipsetSpec>)
    requires
        detection_matches(pmc_boot_0, r),
    ensures
        ({
            let id = (pmc_boot_0 >> 20u32) & 0xfffu32;
            &&& r is Ok <==> (id == 0x162 || id == 0x164 || id == 0x166 || id == 0x167 || id
                == 0x168 || id == 0x170 || id == 0x172 || id == 0x173 || id == 0x174 || id == 0x176
                || id == 0x177 || id == 0x188 || id == 0x189 || id == 0x190 || id == 0x191 || id
                == 0x192)
            &&& r is Err ==> r == Err::<ChipsetSpec, Error>(Error::NoDevice)
        }),
{
    let id = (pmc_boot_0 >> 20u32) & 0xfffu32;
    assert(id < 0x1000u32) by (bit_vector)
        requires
            id == (pmc_boot_0 >> 20u32) & 0xfffu32,
    ;
    assert(chip_id_of(pmc_boot_0) == id);
    lemma_known_chip_ids(chip_id_of(pmc_boot_0));
}

} // verus!
