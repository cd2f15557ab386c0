//! The extension identifiers of the RISC-V SBI, taken from the `sbi_spec`
//! crate. Each value below is the one that crate defines; the spec functions
//! name those values for contracts.

use vstd::prelude::*;

verus! {

/// The Base extension (`0x10`).
pub open spec fn eid_base_value() -> usize {
    0x10
}

/// The Timer extension, `"TIME"` read as a big-endian word.
pub open spec fn eid_time_value() -> usize {
    0x5449_4D45
}

/// The System Reset extension, `"SRST"`.
pub open spec fn eid_srst_value() -> usize {
    0x5352_5354
}

/// The Remote Fence extension, `"RFNC"`.
pub open spec fn eid_rfnc_value() -> usize {
    0x5246_4E43
}

/// The Performance Monitoring Unit extension, `"PMU"`.
pub open spec fn eid_pmu_value() -> usize {
    0x0050_4D55
}

/// Legacy `sbi_set_timer` (extension 0).
pub open spec fn legacy_set_timer_value() -> usize {
    0
}

/// Legacy `sbi_console_putchar` (extension 1).
pub open spec fn legacy_console_putchar_value() -> usize {
    1
}

/// Legacy `sbi_console_getchar` (extension 2).
pub open spec fn legacy_console_getchar_value() -> usize {
    2
}

/// Legacy `sbi_shutdown` (extension 8).
pub open spec fn legacy_shutdown_value() -> usize {
    8
}

/// `sbi_spec::base::EID_BASE`, which that crate defines as `0x10`.
#[verifier::external_body]
pub(crate) fn eid_base() -> (r: usize)
    ensures
        r == eid_base_value(),
{
    sbi_spec::base::EID_BASE
}

/// `sbi_spec::time::EID_TIME`, which that crate defines as the identifier
/// spelled `"TIME"`, `0x5449_4D45`.
#[verifier::external_body]
pub(crate) fn eid_time() -> (r: usize)
    ensures
        r == eid_time_value(),
{
    sbi_spec::time::EID_TIME
}

/// `sbi_spec::srst::EID_SRST`, the identifier spelled `"SRST"`, `0x5352_5354`.
#[verifier::external_body]
pub(crate) fn eid_srst() -> (r: usize)
    ensures
        r == eid_srst_value(),
{
    sbi_spec::srst::EID_SRST
}

/// `sbi_spec::pmu::EID_PMU`, the identifier spelled `"PMU"`, `0x0050_4D55`.
#[verifier::external_body]
pub(crate) fn eid_pmu() -> (r: usize)
    ensures
        r == eid_pmu_value(),
{
    sbi_spec::pmu::EID_PMU
}

/// `sbi_spec::legacy::LEGACY_SET_TIMER`, defined there as 0.
#[verifier::external_body]
pub(crate) fn legacy_set_timer() -> (r: usize)
    ensures
        r == legacy_set_timer_value(),
{
    sbi_spec::legacy::LEGACY_SET_TIMER
}

/// `sbi_spec::legacy::LEGACY_CONSOLE_PUTCHAR`, defined there as 1.
#[verifier::external_body]
pub(crate) fn legacy_console_putchar() -> (r: usize)
    ensures
        r == legacy_console_putchar_value(),
{
    sbi_spec::legacy::LEGACY_CONSOLE_PUTCHAR
}

/// `sbi_spec::legacy::LEGACY_CONSOLE_GETCHAR`, defined there as 2.
#[verifier::external_body]
pub(crate) fn legacy_console_getchar() -> (r: usize)
    ensures
        r == legacy_console_getchar_value(),
{
    sbi_spec::legacy::LEGACY_CONSOLE_GETCHAR
}

/// `sbi_spec::legacy::LEGACY_SHUTDOWN`, defined there as 8.
#[verifier::external_body]
pub(crate) fn legacy_shutdown() -> (r: usize)
    ensures
        r == legacy_shutdown_value(),
{
    sbi_spec::legacy::LEGACY_SHUTDOWN
}

} // verus!
