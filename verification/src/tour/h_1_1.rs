//! The single-guest hypervisor: it prepares the guest's registers and
//! stage-2 translation, runs the guest once, and decides what its exit means.

use vstd::prelude::*;

use crate::mapping::{
    flag_execute, flag_read, flag_user, flag_write, Mapping, MAPPING_EXECUTE, MAPPING_READ,
    MAPPING_USER, MAPPING_WRITE,
};
use crate::regs::GeneralPurposeRegisters;
use crate::sysregs::exception_class::{EC_HVC64, EC_SMC64};
use crate::sysregs::{esr_ec, exception_class_of};
use crate::vcpu::{
    guest_hcr, guest_hcr_el2, guest_spsr, guest_spsr_el2, guest_vtcr, guest_vtcr_el2, psci_exit, psci_exit_action, vmexit_action,
    GuestCpuState, VmCpuRegisters, VmExitAction,
};

verus! {

/// Where the guest image starts: 1 GiB + 2 MiB, inside the guest's address
/// space of 0..2 GiB.
pub const VM_ENTRY: usize = 0x4020_0000;

/// The size of the guest image region: 128 KiB for code, data and stack.
pub const VM_IMAGE_SIZE: usize = 128 * 1024;

/// The permissions of the guest image region: read, write, execute, user.
pub open spec fn vm_image_flags() -> usize {
    MAPPING_READ | MAPPING_WRITE | MAPPING_EXECUTE | MAPPING_USER
}

/// Where the guest image goes in the guest's address space: 128 KiB from
/// `VM_ENTRY`, readable, writable, executable and accessible to the guest,
/// populated at once.
pub fn load_vm_image() -> (r: Mapping)
    ensures
        r == (Mapping { start: VM_ENTRY, size: VM_IMAGE_SIZE, flags: vm_image_flags(), populate: true }),
{
    let flags = flag_read() | flag_write() | flag_execute() | flag_user();
    Mapping { start: VM_ENTRY, size: 128 * 1024, flags, populate: true }
}

/// `regs` made ready to enter the guest at `entry`: the hypervisor
/// configuration and processor state of a guest, the rest as it was.
pub open spec fn prepared_guest(regs: VmCpuRegisters, entry: usize) -> VmCpuRegisters {
    VmCpuRegisters {
        guest_regs: GuestCpuState {
            hcr_el2: guest_hcr_el2(),
            spsr_el2: guest_spsr_el2(),
            elr_el2: entry,
            ..regs.guest_regs
        },
        ..regs
    }
}

/// Sets up the guest's registers to enter it at `VM_ENTRY`, at EL1h with
/// interrupts masked, stage-2 translation on and `SMC` trapped.
pub fn prepare_guest_context(ctx: &mut VmCpuRegisters)
    ensures
        *final(ctx) == prepared_guest(*old(ctx), VM_ENTRY),
{
    ctx.guest_regs.hcr_el2 = guest_hcr();
    ctx.guest_regs.spsr_el2 = guest_spsr();
    ctx.guest_regs.elr_el2 = VM_ENTRY;
}

/// The values to load into `VTTBR_EL2` and `VTCR_EL2` so that the guest's
/// stage-2 translation starts at `ept_root`.
pub fn prepare_vm_pgtable(ept_root: usize) -> (r: (usize, usize))
    ensures
        r == (ept_root, guest_vtcr_el2()),
{
    (ept_root, guest_vtcr())
}

/// What a trap with syndrome `esr` out of a guest whose argument registers
/// are `args` leads to: only `HVC`/`SMC` calls are understood.
pub open spec fn guest_exit_action(args: Seq<usize>, esr: usize) -> VmExitAction {
    let ec = esr_ec(esr as u64);
    if ec == EC_HVC64 as u64 || ec == EC_SMC64 as u64 {
        psci_exit_action(args)
    } else {
        VmExitAction::UnhandledTrap { ec }
    }
}

/// Decides what the guest's exit with syndrome `esr_el2` means.
pub fn vmexit_handler(ctx: &VmCpuRegisters, esr_el2: usize) -> (r: VmExitAction)
    ensures
        r == guest_exit_action(ctx.guest_regs.gprs.x@.subrange(0, 8), esr_el2),
{
    let ec = exception_class_of(esr_el2 as u64);
    if ec == EC_HVC64 as u64 || ec == EC_SMC64 as u64 {
        psci_exit(&ctx.guest_regs.gprs)
    } else {
        VmExitAction::UnhandledTrap { ec }
    }
}

/// The single-guest hypervisor and the virtual CPU decide every exit alike,
/// except that only the virtual CPU turns a data abort from the guest into a
/// page fault for its caller.
pub proof fn lemma_exit_decisions_agree(args: Seq<usize>, esr: usize, far: usize)
    requires
        esr_ec(esr as u64) != crate::sysregs::exception_class::EC_DABT_LOWER as u64,
    ensures
        guest_exit_action(args, esr) == vmexit_action(args, esr, far),
{
}

/// Preparing zeroed registers for the guest gives the very state of a fresh
/// virtual CPU (`AARCH64Vcpu::init`) whose entry is then set to `VM_ENTRY`.
pub proof fn lemma_prepare_matches_vcpu_init(zero: VmCpuRegisters, fresh: VmCpuRegisters)
    requires
        zero.is_zero(),
        fresh.is_initial(),
    ensures
        prepared_guest(zero, VM_ENTRY) == fresh.with_guest_elr(VM_ENTRY),
{
    broadcast use vstd::array::group_array_axioms;

    assert(zero.hyp_regs.gprs.x =~= fresh.hyp_regs.gprs.x);
    assert(zero.guest_regs.gprs.x =~= fresh.guest_regs.gprs.x);
}

} // verus!
