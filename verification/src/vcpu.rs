//! The state of a virtual CPU and what the hypervisor does with it between
//! world switches: setting it up, moving the guest's program counter, and
//! deciding what a trap out of the guest means.

use vstd::prelude::*;

use crate::error::HvError;
use crate::psci::{psci_decode, PsciMessage, SystemFunction};
use crate::regs::GeneralPurposeRegisters;
use crate::sysregs::exception_class::{EC_DABT_LOWER, EC_HVC64, EC_SMC64};
use crate::sysregs::{esr_ec, esr_iss, exception_class_of, syndrome_of};
use crate::trap::{data_abort_access, data_abort_flags};

verus! {

/// `HCR_EL2.VM`: stage-2 translation is enabled for EL1&0.
pub const HCR_EL2_VM: usize = 0x1;
/// `HCR_EL2.TSC`: `SMC` instructions at EL1 trap to EL2.
pub const HCR_EL2_TSC: usize = 0x8_0000;
/// `HCR_EL2.RW`: EL1 executes in AArch64 state.
pub const HCR_EL2_RW: usize = 0x8000_0000;

/// `SPSR_EL2.M = EL1h`: return to EL1 using `SP_EL1`.
pub const SPSR_EL2_M_EL1H: usize = 0b0101;
/// `SPSR_EL2.F`: FIQs masked.
pub const SPSR_EL2_F: usize = 0x40;
/// `SPSR_EL2.I`: IRQs masked.
pub const SPSR_EL2_I: usize = 0x80;
/// `SPSR_EL2.A`: SErrors masked.
pub const SPSR_EL2_A: usize = 0x100;
/// `SPSR_EL2.D`: debug exceptions masked.
pub const SPSR_EL2_D: usize = 0x200;

/// The hypervisor configuration a guest runs under.
pub open spec fn guest_hcr_el2() -> usize {
    HCR_EL2_RW | HCR_EL2_VM | HCR_EL2_TSC
}

/// The processor state a guest is entered with: EL1h, all interrupts masked.
pub open spec fn guest_spsr_el2() -> usize {
    SPSR_EL2_M_EL1H | SPSR_EL2_F | SPSR_EL2_I | SPSR_EL2_A | SPSR_EL2_D
}

/// The stage-2 translation control a guest runs under: a 48-bit input
/// address space (`T0SZ` = 16) walked from level 0 (`SL0` = 2) with 4 KiB
/// granules (`TG0` = 0), inner shareable (`SH0` = 3), write-back
/// read-allocate no-write-allocate caching inside and outside
/// (`IRGN0` = `ORGN0` = 3), and a 40-bit physical address size (`PS` = `0b010`).
pub open spec fn guest_vtcr_el2() -> usize {
    (16usize << 0usize) | (2usize << 6usize) | (3usize << 8usize) | (3usize << 10usize)
        | (3usize << 12usize) | (0usize << 14usize) | (2usize << 16usize)
}

/// The stage-2 translation control of a guest is `0x2_3F90`.
pub proof fn lemma_guest_vtcr_value()
    ensures
        guest_vtcr_el2() == 0x2_3F90,
{
    assert(((16usize << 0usize) | (2usize << 6usize) | (3usize << 8usize) | (3usize << 10usize)
        | (3usize << 12usize) | (0usize << 14usize) | (2usize << 16usize)) == 0x2_3F90usize)
        by (bit_vector);
}

/// The registers the hypervisor keeps for itself across a guest's run.
pub struct HypervisorCpuState {
    pub gprs: GeneralPurposeRegisters,
    pub elr_el2: usize,
    pub spsr_el2: usize,
    pub sp_el2: usize,
}

/// The guest's registers, loaded on entry and saved on exit.
pub struct GuestCpuState {
    pub gprs: GeneralPurposeRegisters,
    pub elr_el2: usize,
    pub spsr_el2: usize,
    pub hcr_el2: usize,
    pub vtcr_el2: usize,
    pub vttbr_el2: usize,
}

/// Both register sets of one virtual CPU.
pub struct VmCpuRegisters {
    pub hyp_regs: HypervisorCpuState,
    pub guest_regs: GuestCpuState,
}

impl HypervisorCpuState {
    /// Every register holds zero.
    pub open spec fn is_zero(&self) -> bool {
        &&& self.gprs.is_zero()
        &&& self.elr_el2 == 0
        &&& self.spsr_el2 == 0
        &&& self.sp_el2 == 0
    }
}

impl GuestCpuState {
    /// Every register holds zero.
    pub open spec fn is_zero(&self) -> bool {
        &&& self.gprs.is_zero()
        &&& self.elr_el2 == 0
        &&& self.spsr_el2 == 0
        &&& self.hcr_el2 == 0
        &&& self.vtcr_el2 == 0
        &&& self.vttbr_el2 == 0
    }
}

impl VmCpuRegisters {
    /// Every register holds zero.
    pub open spec fn is_zero(&self) -> bool {
        &&& self.hyp_regs.is_zero()
        &&& self.guest_regs.is_zero()
    }

    /// The state of a freshly set up guest: everything zero but the
    /// hypervisor configuration and the processor state.
    pub open spec fn is_initial(&self) -> bool {
        &&& self.hyp_regs.is_zero()
        &&& self.guest_regs.gprs.is_zero()
        &&& self.guest_regs.elr_el2 == 0
        &&& self.guest_regs.spsr_el2 == guest_spsr_el2()
        &&& self.guest_regs.hcr_el2 == guest_hcr_el2()
        &&& self.guest_regs.vtcr_el2 == 0
        &&& self.guest_regs.vttbr_el2 == 0
    }

    /// This state with the guest's `ELR_EL2` replaced.
    pub open spec fn with_guest_elr(self, elr: usize) -> Self {
        VmCpuRegisters { guest_regs: GuestCpuState { elr_el2: elr, ..self.guest_regs }, ..self }
    }

    /// This state with the guest's stage-2 registers replaced.
    pub open spec fn with_stage2(self, vttbr: usize, vtcr: usize) -> Self {
        VmCpuRegisters {
            guest_regs: GuestCpuState { vttbr_el2: vttbr, vtcr_el2: vtcr, ..self.guest_regs },
            ..self
        }
    }
}

impl Default for HypervisorCpuState {
    fn default() -> (r: Self)
        ensures
            r.is_zero(),
    {
        HypervisorCpuState {
            gprs: GeneralPurposeRegisters::default(),
            elr_el2: 0,
            spsr_el2: 0,
            sp_el2: 0,
        }
    }
}

impl Default for GuestCpuState {
    fn default() -> (r: Self)
        ensures
            r.is_zero(),
    {
        GuestCpuState {
            gprs: GeneralPurposeRegisters::default(),
            elr_el2: 0,
            spsr_el2: 0,
            hcr_el2: 0,
            vtcr_el2: 0,
            vttbr_el2: 0,
        }
    }
}

impl Default for VmCpuRegisters {
    fn default() -> (r: Self)
        ensures
            r.is_zero(),
    {
        VmCpuRegisters { hyp_regs: HypervisorCpuState::default(), guest_regs: GuestCpuState::default() }
    }
}

/// Why a run of the virtual CPU came back to its caller.
#[derive(Debug, Clone, Copy, PartialEq, Eq, Structural)]
pub enum AxVCpuExitReason {
    /// Nothing for the caller to do; run the vCPU again.
    Nothing,
    /// A stage-2 fault at guest physical address `addr`, for an access with
    /// the permissions `access_flags` (bits of `MappingFlags`).
    PageFault { addr: usize, access_flags: usize },
}

/// What the hypervisor does with a trap out of the guest.
#[derive(Debug, Clone, Copy, PartialEq, Eq, Structural)]
pub enum VmExitAction {
    /// The guest called PSCI `SYSTEM_OFF`: the hypervisor terminates.
    Shutdown,
    /// The guest called PSCI `SYSTEM_RESET`: the hypervisor terminates.
    Reset,
    /// Another PSCI call, which is not acted on: the run ends with
    /// `AxVCpuExitReason::Nothing`.
    UnhandledPsci(PsciMessage),
    /// The run ends with this reason.
    Exit(AxVCpuExitReason),
    /// An `HVC`/`SMC` that is no PSCI call: fatal.
    BadPsciMessage,
    /// An exception class that is not handled: fatal.
    UnhandledTrap { ec: u64 },
}

/// What a guest's `HVC`/`SMC` with argument registers `args` leads to.
pub open spec fn psci_exit_action(args: Seq<usize>) -> VmExitAction {
    match psci_decode(args) {
        Ok(PsciMessage::System(SystemFunction::SystemOff)) => VmExitAction::Shutdown,
        Ok(PsciMessage::System(SystemFunction::SystemReset { .. })) => VmExitAction::Reset,
        Ok(msg) => VmExitAction::UnhandledPsci(msg),
        Err(_) => VmExitAction::BadPsciMessage,
    }
}

/// What a trap with syndrome `esr` and fault address `far` out of a guest
/// whose argument registers are `args` leads to.
pub open spec fn vmexit_action(args: Seq<usize>, esr: usize, far: usize) -> VmExitAction {
    let ec = esr_ec(esr as u64);
    if ec == EC_HVC64 as u64 || ec == EC_SMC64 as u64 {
        psci_exit_action(args)
    } else if ec == EC_DABT_LOWER as u64 {
        VmExitAction::Exit(
            AxVCpuExitReason::PageFault {
                addr: far,
                access_flags: data_abort_access(esr_iss(esr as u64), true),
            },
        )
    } else {
        VmExitAction::UnhandledTrap { ec }
    }
}

/// Decides a guest's `HVC`/`SMC` from its argument registers.
pub fn psci_exit(gprs: &GeneralPurposeRegisters) -> (r: VmExitAction)
    ensures
        r == psci_exit_action(gprs.x@.subrange(0, 8)),
{
    let args = gprs.a_regs();
    match PsciMessage::from_regs(args) {
        Ok(PsciMessage::System(SystemFunction::SystemOff)) => VmExitAction::Shutdown,
        Ok(PsciMessage::System(SystemFunction::SystemReset { .. })) => VmExitAction::Reset,
        Ok(msg) => VmExitAction::UnhandledPsci(msg),
        Err(_) => VmExitAction::BadPsciMessage,
    }
}

/// The hypervisor configuration a guest runs under (see `guest_hcr_el2`).
pub fn guest_hcr() -> (r: usize)
    ensures
        r == guest_hcr_el2(),
{
    let mut hcr_el2: usize = 0;
    hcr_el2 |= 1 << 31;  // RW
    hcr_el2 |= 1 << 0;  // VM
    hcr_el2 |= 1 << 19;  // TSC: trap SMC to EL2
    assert(hcr_el2 == guest_hcr_el2()) by (bit_vector)
        requires
            hcr_el2 == ((0usize | (1usize << 31usize)) | (1usize << 0usize)) | (1usize << 19usize),
    ;
    hcr_el2
}

/// The processor state a guest is entered with (see `guest_spsr_el2`).
pub fn guest_spsr() -> (r: usize)
    ensures
        r == guest_spsr_el2(),
{
    let mut spsr_el2: usize = 0;
    spsr_el2 |= 0b0101;  // EL1h
    spsr_el2 |= 1 << 6;  // F
    spsr_el2 |= 1 << 7;  // I
    spsr_el2 |= 1 << 8;  // A
    spsr_el2 |= 1 << 9;  // D
    assert(spsr_el2 == guest_spsr_el2()) by (bit_vector)
        requires
            spsr_el2 == ((((0usize | 5usize) | (1usize << 6usize)) | (1usize << 7usize)) | (1usize
                << 8usize)) | (1usize << 9usize),
    ;
    spsr_el2
}

/// The stage-2 translation control a guest runs under (see
/// `guest_vtcr_el2`).
pub fn guest_vtcr() -> (r: usize)
    ensures
        r == guest_vtcr_el2(),
{
    16 << 0 | (0b10 << 6) | (0b11 << 8) | (0b11 << 10) | (0b11 << 12) | (0b00 << 14) | (0b010 << 16)
}

/// A virtual CPU of an AArch64 guest.
pub struct AARCH64Vcpu {
    regs: VmCpuRegisters,
}

impl View for AARCH64Vcpu {
    type V = VmCpuRegisters;

    closed spec fn view(&self) -> VmCpuRegisters {
        self.regs
    }
}

impl Default for AARCH64Vcpu {
    /// A virtual CPU whose registers are all zero.
    fn default() -> (r: Self)
        ensures
            r@.is_zero(),
    {
        AARCH64Vcpu { regs: VmCpuRegisters::default() }
    }
}

impl AARCH64Vcpu {
    /// A virtual CPU that enters its guest at EL1h with interrupts masked,
    /// stage-2 translation on, `SMC` trapped, and all other registers zero.
    pub fn init() -> (r: Self)
        ensures
            r@.is_initial(),
    {
        let mut regs = VmCpuRegisters::default();

        regs.guest_regs.hcr_el2 = guest_hcr();
        regs.guest_regs.spsr_el2 = guest_spsr();

        Self { regs }
    }

    /// Makes the guest start (or resume) at `entry`.
    pub fn set_entry(&mut self, entry: usize) -> (r: Result<(), HvError>)
        ensures
            r is Ok,
            final(self)@ == old(self)@.with_guest_elr(entry),
    {
        self.regs.guest_regs.elr_el2 = entry;
        Ok(())
    }

    /// Makes `ept_root` the root of the guest's stage-2 translation, under the
    /// translation control of `guest_vtcr_el2`. The caller loads both into
    /// `VTTBR_EL2` and `VTCR_EL2` and flushes the TLBs.
    pub fn set_ept_root(&mut self, ept_root: usize) -> (r: Result<(), HvError>)
        ensures
            r is Ok,
            final(self)@ == old(self)@.with_stage2(ept_root, guest_vtcr_el2()),
    {
        self.regs.guest_regs.vttbr_el2 = ept_root;
        self.regs.guest_regs.vtcr_el2 = guest_vtcr();
        Ok(())
    }

    /// Moves the guest's program counter past an instruction of `instr_len`
    /// bytes.
    pub fn advance_pc(&mut self, instr_len: usize)
        requires
            old(self)@.guest_regs.elr_el2 + instr_len <= usize::MAX,
        ensures
            final(self)@ == old(self)@.with_guest_elr(
                (old(self)@.guest_regs.elr_el2 + instr_len) as usize,
            ),
    {
        self.regs.guest_regs.elr_el2 += instr_len;
    }

    /// The registers of this virtual CPU, to read or change in place.
    pub fn regs(&mut self) -> (r: &mut VmCpuRegisters)
        ensures
            *r == old(self)@,
            final(self)@ == *final(r),
    {
        &mut self.regs
    }

    /// Decides what the trap that ended the last run means, given the
    /// syndrome (`ESR_EL2`) and fault address (`FAR_EL2`) it left.
    pub fn vmexit_handler(&self, esr_el2: usize, far_el2: usize) -> (r: VmExitAction)
        ensures
            r == vmexit_action(self@.guest_regs.gprs.x@.subrange(0, 8), esr_el2, far_el2),
    {
        let ec = exception_class_of(esr_el2 as u64);
        if ec == EC_HVC64 as u64 || ec == EC_SMC64 as u64 {
            psci_exit(&self.regs.guest_regs.gprs)
        } else if ec == EC_DABT_LOWER as u64 {
            let iss = syndrome_of(esr_el2 as u64);
            let access_flags = data_abort_flags(iss, true);
            VmExitAction::Exit(AxVCpuExitReason::PageFault { addr: far_el2, access_flags })
        } else {
            VmExitAction::UnhandledTrap { ec }
        }
    }
}


/// A guest's `HVC`/`SMC` is fatal exactly when its registers do not decode
/// as a PSCI call. A decoded `SYSTEM_OFF` shuts down, a decoded
/// `SYSTEM_RESET` resets, and every other decoded call (such as
/// `PSCI_VERSION`) ends the run with that very call reported as unhandled.
pub proof fn lemma_psci_exit_by_decoding(args: Seq<usize>)
    requires
        args.len() >= 4,
    ensures
        (psci_exit_action(args) is BadPsciMessage) <==> (psci_decode(args) is Err),
        (psci_exit_action(args) is Shutdown) <==> psci_decode(args) == Ok::<PsciMessage, HvError>(
            PsciMessage::System(SystemFunction::SystemOff),
        ),
        (psci_exit_action(args) is Reset) <==> (psci_decode(args) matches Ok(
            PsciMessage::System(SystemFunction::SystemReset { .. }),
        )),
        forall|m: PsciMessage|
            psci_decode(args) == Ok::<PsciMessage, HvError>(m) && !(m is System) ==> psci_exit_action(
                args,
            ) == VmExitAction::UnhandledPsci(m),
        args[0] == crate::psci::PSCI_FN_VERSION ==> psci_exit_action(args)
            == VmExitAction::UnhandledPsci(PsciMessage::Version(crate::psci::VersionFunction)),
{
}

/// On the virtual CPU, an `HVC` or `SMC` trap is decided as a PSCI call from
/// `x0`..`x7`, and a data abort from the guest is a page fault at the fault
/// address for a user access.
pub proof fn lemma_vmexit_by_class(args: Seq<usize>, esr: usize, far: usize)
    ensures
        esr_ec(esr as u64) == EC_HVC64 as u64 || esr_ec(esr as u64) == EC_SMC64 as u64
            ==> vmexit_action(args, esr, far) == psci_exit_action(args),
        esr_ec(esr as u64) == EC_DABT_LOWER as u64 ==> (vmexit_action(args, esr, far) matches
            VmExitAction::Exit(AxVCpuExitReason::PageFault { addr, access_flags }) && addr == far
            && access_flags & crate::mapping::MAPPING_USER == crate::mapping::MAPPING_USER),
{
    crate::trap::lemma_abort_flags_user(esr_iss(esr as u64), true);
}

} // verus!
