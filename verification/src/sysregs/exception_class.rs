//! Exception classes (`ESR_EL2.EC`) that the hypervisor tells apart.

use vstd::prelude::*;

verus! {

pub const EC_UNKNOWN: u32 = 0x00;
pub const EC_WFI_WFE: u32 = 0x01;
/// `SVC` executed in AArch64 state.
pub const EC_SVC64: u32 = 0x15;
pub const EC_HVC64: u32 = 0x16;
pub const EC_SMC64: u32 = 0x17;
pub const EC_IABT_LOWER: u32 = 0x20;
pub const EC_IABT_CURRENT: u32 = 0x21;
pub const EC_DABT_LOWER: u32 = 0x24;
pub const EC_DABT_CURRENT: u32 = 0x25;
/// `BRK` executed in AArch64 state.
pub const EC_BRK64: u32 = 0x3c;

} // verus!
