//! What the boot path does to drop from the exception level it was started
//! in down to EL1, and the memory attributes and translation control with
//! which it turns on the EL2 MMU. The register fields come from
//! `aarch64_cpu`.

use vstd::prelude::*;

use aarch64_cpu::registers::{MAIR_EL2, TCR_EL2};

verus! {

/// The steps that take the boot CPU from its current exception level to EL1.
#[derive(Debug, Clone, Copy, PartialEq, Eq, Structural)]
pub enum El1Switch {
    /// Already at EL1 (or below): nothing to do.
    StayHere,
    /// At EL2: give EL1 the timers and AArch64 state, then return to EL1h
    /// with everything masked.
    FromEl2,
    /// At EL3: first make EL2 non-secure, AArch64 and `HVC`-enabled, then do
    /// what is done from EL2.
    FromEl3,
}

/// Decides the switch to EL1 from the exception level `current_el` (the
/// `CurrentEL.EL` field): the EL3 steps only at EL3, the EL2 steps at any
/// level from 2 up.
pub fn switch_to_el1(current_el: u64) -> (r: El1Switch)
    ensures
        current_el < 2 ==> r == El1Switch::StayHere,
        current_el == 3 ==> r == El1Switch::FromEl3,
        current_el >= 2 && current_el != 3 ==> r == El1Switch::FromEl2,
{
    if current_el >= 2 {
        if current_el == 3 {
            El1Switch::FromEl3
        } else {
            El1Switch::FromEl2
        }
    } else {
        El1Switch::StayHere
    }
}

/// `TCR_EL2::PS::Bits_40` of `aarch64_cpu`: the field `PS` (bits 18:16) set to
/// `0b010`, a 40-bit physical address size.
#[verifier::external_body]
fn tcr_ps_bits_40() -> (r: u64)
    ensures
        r == 0b010u64 << 16u64,
{
    TCR_EL2::PS::Bits_40.value
}

/// `TCR_EL2::TG0::KiB_4`: the field `TG0` (bits 15:14) set to `0b00`, 4 KiB
/// granules.
#[verifier::external_body]
fn tcr_tg0_4k() -> (r: u64)
    ensures
        r == 0u64,
{
    TCR_EL2::TG0::KiB_4.value
}

/// `TCR_EL2::SH0::Inner`: the field `SH0` (bits 13:12) set to `0b11`, inner
/// shareable.
#[verifier::external_body]
fn tcr_sh0_inner() -> (r: u64)
    ensures
        r == 0b11u64 << 12u64,
{
    TCR_EL2::SH0::Inner.value
}

/// `TCR_EL2::ORGN0::WriteBack_ReadAlloc_WriteAlloc_Cacheable`: the field
/// `ORGN0` (bits 11:10) set to `0b01`.
#[verifier::external_body]
fn tcr_orgn0_wb() -> (r: u64)
    ensures
        r == 0b01u64 << 10u64,
{
    TCR_EL2::ORGN0::WriteBack_ReadAlloc_WriteAlloc_Cacheable.value
}

/// `TCR_EL2::IRGN0::WriteBack_ReadAlloc_WriteAlloc_Cacheable`: the field
/// `IRGN0` (bits 9:8) set to `0b01`.
#[verifier::external_body]
fn tcr_irgn0_wb() -> (r: u64)
    ensures
        r == 0b01u64 << 8u64,
{
    TCR_EL2::IRGN0::WriteBack_ReadAlloc_WriteAlloc_Cacheable.value
}

/// `TCR_EL2::T0SZ.val(size)`: the field `T0SZ` (bits 5:0) set to `size`,
/// which the crate masks to six bits.
#[verifier::external_body]
fn tcr_t0sz(size: u64) -> (r: u64)
    requires
        size < 64,
    ensures
        r == size,
{
    TCR_EL2::T0SZ.val(size).value
}

/// `MAIR_EL2::Attr0_Device::nonGathering_nonReordering_EarlyWriteAck`:
/// attribute 0 (bits 7:0) set to `0x04`, Device-nGnRE memory.
#[verifier::external_body]
fn mair_attr0_device() -> (r: u64)
    ensures
        r == 0x04u64,
{
    MAIR_EL2::Attr0_Device::nonGathering_nonReordering_EarlyWriteAck.value
}

/// `MAIR_EL2::Attr1_Normal_Inner::WriteBack_NonTransient_ReadWriteAlloc`:
/// the inner half of attribute 1 (bits 11:8) set to `0xf`.
#[verifier::external_body]
fn mair_attr1_inner_wb() -> (r: u64)
    ensures
        r == 0xfu64 << 8u64,
{
    MAIR_EL2::Attr1_Normal_Inner::WriteBack_NonTransient_ReadWriteAlloc.value
}

/// `MAIR_EL2::Attr1_Normal_Outer::WriteBack_NonTransient_ReadWriteAlloc`:
/// the outer half of attribute 1 (bits 15:12) set to `0xf`.
#[verifier::external_body]
fn mair_attr1_outer_wb() -> (r: u64)
    ensures
        r == 0xfu64 << 12u64,
{
    MAIR_EL2::Attr1_Normal_Outer::WriteBack_NonTransient_ReadWriteAlloc.value
}

/// The translation control of the EL2 MMU at boot: 40-bit physical
/// addresses (`PS`), 4 KiB granules (`TG0`), inner shareable (`SH0`),
/// write-back read/write-allocate caching outside and inside (`ORGN0`,
/// `IRGN0`), and a 48-bit address space (`T0SZ` = 16).
pub open spec fn boot_tcr_el2_value() -> u64 {
    (0b010u64 << 16u64) | 0u64 | (0b11u64 << 12u64) | (0b01u64 << 10u64) | (0b01u64 << 8u64)
        | 16u64
}

/// The memory attributes of the EL2 MMU at boot: attribute 0 is
/// Device-nGnRE, attribute 1 is normal write-back memory.
pub open spec fn boot_mair_el2_value() -> u64 {
    0x04u64 | (0xfu64 << 8u64) | (0xfu64 << 12u64)
}

/// The value loaded into `TCR_EL2` at boot (see `boot_tcr_el2_value`); it is
/// `0x2_3510`.
pub fn boot_tcr_el2() -> (r: u64)
    ensures
        r == boot_tcr_el2_value(),
        r == 0x2_3510,
{
    let r = tcr_ps_bits_40() | tcr_tg0_4k() | tcr_sh0_inner() | tcr_orgn0_wb() | tcr_irgn0_wb()
        | tcr_t0sz(16);
    assert(((0b010u64 << 16u64) | 0u64 | (0b11u64 << 12u64) | (0b01u64 << 10u64) | (0b01u64
        << 8u64) | 16u64) == 0x2_3510u64) by (bit_vector);
    r
}

/// The value loaded into `MAIR_EL2` at boot (see `boot_mair_el2_value`); it
/// is `0xff04`.
pub fn boot_mair_el2() -> (r: u64)
    ensures
        r == boot_mair_el2_value(),
        r == 0xff04,
{
    let r = mair_attr0_device() | mair_attr1_inner_wb() | mair_attr1_outer_wb();
    assert((0x04u64 | (0xfu64 << 8u64) | (0xfu64 << 12u64)) == 0xff04u64) by (bit_vector);
    r
}

} // verus!
