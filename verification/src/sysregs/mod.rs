//! The EL2 system registers that the hypervisor reads and writes, and the
//! fields of the exception syndrome it decodes.
//!
//! Each register is named by a type of its own; reading and writing them
//! takes `mrs`/`msr` instructions, which live outside this library.

use vstd::prelude::*;

pub mod exception_class;

verus! {

/// `HCR_EL2`, the hypervisor configuration register.
pub struct HcrEl2;

/// `VTTBR_EL2`, the stage-2 translation table base register.
pub struct VttbrEl2;

/// `ELR_EL2`, the exception link register.
pub struct ElrEl2;

/// `SPSR_EL2`, the saved program status register.
pub struct SpsrEl2;

/// `ESR_EL2`, the exception syndrome register.
pub struct EsrEl2;

/// `FAR_EL2`, the fault address register.
pub struct FarEl2;

/// `VTCR_EL2`, the stage-2 translation control register.
pub struct VtcrEl2;

/// All EL2 system registers that the hypervisor uses.
pub struct SysRegs {
    pub hcr_el2: HcrEl2,
    pub vttbr_el2: VttbrEl2,
    pub vtcr_el2: VtcrEl2,
    pub elr_el2: ElrEl2,
    pub spsr_el2: SpsrEl2,
    pub esr_el2: EsrEl2,
    pub far_el2: FarEl2,
}

/// The exception class, `ESR_EL2[31:26]`.
pub open spec fn esr_ec(esr: u64) -> u64 {
    (esr >> 26u64) & 0x3f
}

/// The instruction specific syndrome, `ESR_EL2[24:0]`.
pub open spec fn esr_iss(esr: u64) -> u64 {
    esr & 0x1ff_ffff
}

/// Extracts the exception class of a syndrome; it is below 64.
pub fn exception_class_of(esr: u64) -> (ec: u64)
    ensures
        ec == esr_ec(esr),
        ec < 64,
{
    assert(((esr >> 26u64) & 0x3f) < 64) by (bit_vector);
    (esr >> 26u64) & 0x3f
}

/// Extracts the instruction specific syndrome; it is below `2^25`.
pub fn syndrome_of(esr: u64) -> (iss: u64)
    ensures
        iss == esr_iss(esr),
        iss < 0x200_0000,
{
    assert((esr & 0x1ff_ffff) < 0x200_0000) by (bit_vector);
    esr & 0x1ff_ffff
}

} // verus!
