use hv_tour::context::TrapFrame;
use hv_tour::psci::{CpuFunction, PsciMessage};
use hv_tour::regs::GeneralPurposeRegisters;
use hv_tour::trap::{handle_data_abort_el2, handle_instruction_abort_el2, handle_sync_exception_el2, AbortAction, SyncExceptionAction};
use hv_tour::vcpu::{AxVCpuExitReason, AARCH64Vcpu, VmCpuRegisters, VmExitAction};
use page_table_entry::MappingFlags;

fn esr(ec: u64, iss: u64) -> usize {
    ((ec << 26) | iss) as usize
}

#[test]
fn a_regs_are_the_first_eight() {
    let mut g = GeneralPurposeRegisters::default();
    for i in 0..31 {
        g.x[i] = i * 10;
    }
    assert_eq!(g.a_regs(), &[0, 10, 20, 30, 40, 50, 60, 70]);
    g.a_regs_mut()[3] = 7;
    assert_eq!(g.x[3], 7);
    assert_eq!(g.x[8], 80);
}

#[test]
fn vcpu_init_sets_guest_configuration() {
    let mut v = AARCH64Vcpu::init();
    let r = v.regs();
    assert_eq!(r.guest_regs.hcr_el2, 0x8008_0001);
    assert_eq!(r.guest_regs.spsr_el2, 0x3c5);
    assert_eq!(r.guest_regs.elr_el2, 0);
    assert_eq!(r.hyp_regs.sp_el2, 0);
}

#[test]
fn vcpu_entry_stage2_and_pc() {
    let mut v = AARCH64Vcpu::init();
    assert!(v.set_entry(0x4008_0000).is_ok());
    assert!(v.set_ept_root(0x8_0000_0000).is_ok());
    v.advance_pc(4);
    let r = v.regs();
    assert_eq!(r.guest_regs.elr_el2, 0x4008_0004);
    assert_eq!(r.guest_regs.vttbr_el2, 0x8_0000_0000);
    assert_eq!(r.guest_regs.vtcr_el2, 0x23f90);
    assert_eq!(r.guest_regs.hcr_el2, 0x8008_0001);
}

#[test]
fn vmexit_psci_system_off_shuts_down() {
    let mut v = AARCH64Vcpu::init();
    v.regs().guest_regs.gprs.x[0] = 0x8400_0008;
    assert_eq!(v.vmexit_handler(esr(0x16, 0), 0), VmExitAction::Shutdown);
    assert_eq!(v.vmexit_handler(esr(0x17, 0), 0), VmExitAction::Shutdown);
    v.regs().guest_regs.gprs.x[0] = 0x8400_0009;
    assert_eq!(v.vmexit_handler(esr(0x16, 0), 0), VmExitAction::Reset);
}

#[test]
fn vmexit_other_psci_and_bad_calls() {
    let mut v = AARCH64Vcpu::init();
    v.regs().guest_regs.gprs.x[0] = 0x8400_0002;
    assert_eq!(v.vmexit_handler(esr(0x16, 0), 0), VmExitAction::UnhandledPsci(PsciMessage::Cpu(CpuFunction::CpuOff)));
    v.regs().guest_regs.gprs.x[0] = 0x1234;
    assert_eq!(v.vmexit_handler(esr(0x16, 0), 0), VmExitAction::BadPsciMessage);
}

#[test]
fn vmexit_data_abort_is_a_page_fault() {
    let v = AARCH64Vcpu::init();
    let write = (MappingFlags::WRITE | MappingFlags::USER).bits();
    let read = (MappingFlags::READ | MappingFlags::USER).bits();
    assert_eq!(
        v.vmexit_handler(esr(0x24, 1 << 6), 0x4100_0123),
        VmExitAction::Exit(AxVCpuExitReason::PageFault { addr: 0x4100_0123, access_flags: write })
    );
    assert_eq!(
        v.vmexit_handler(esr(0x24, (1 << 6) | (1 << 8)), 0x10),
        VmExitAction::Exit(AxVCpuExitReason::PageFault { addr: 0x10, access_flags: read })
    );
    assert_eq!(
        v.vmexit_handler(esr(0x24, 0), 0x20),
        VmExitAction::Exit(AxVCpuExitReason::PageFault { addr: 0x20, access_flags: read })
    );
}

#[test]
fn vmexit_other_classes_are_unhandled() {
    let v = AARCH64Vcpu::init();
    assert_eq!(v.vmexit_handler(esr(0x01, 0), 0), VmExitAction::UnhandledTrap { ec: 1 });
    assert_eq!(v.vmexit_handler(esr(0x25, 0), 0), VmExitAction::UnhandledTrap { ec: 0x25 });
}

#[test]
fn vm_cpu_registers_default_is_zero() {
    let r = VmCpuRegisters::default();
    assert!(r.guest_regs.gprs.x.iter().all(|&v| v == 0));
    assert_eq!(r.guest_regs.hcr_el2, 0);
}

#[test]
fn aborts_decide_flags_and_dispatch() {
    let exec_user = (MappingFlags::EXECUTE | MappingFlags::USER).bits();
    assert_eq!(
        handle_instruction_abort_el2(0b0100, true),
        AbortAction { access_flags: exec_user, dispatch: true }
    );
    assert_eq!(
        handle_instruction_abort_el2(0b1100, false),
        AbortAction { access_flags: MappingFlags::EXECUTE.bits(), dispatch: true }
    );
    assert_eq!(
        handle_instruction_abort_el2(0b1000, false),
        AbortAction { access_flags: MappingFlags::EXECUTE.bits(), dispatch: false }
    );
    assert_eq!(
        handle_data_abort_el2((1 << 6) | 0b0101, false),
        AbortAction { access_flags: MappingFlags::WRITE.bits(), dispatch: true }
    );
    assert_eq!(
        handle_data_abort_el2(0b010000, true),
        AbortAction { access_flags: (MappingFlags::READ | MappingFlags::USER).bits(), dispatch: false }
    );
}

#[test]
fn sync_exceptions_dispatch_by_class() {
    let mut tf = TrapFrame::default();
    tf.elr = 0x1000;
    assert_eq!(handle_sync_exception_el2(&mut tf, esr(0x15, 0) as u64), SyncExceptionAction::Syscall);
    assert_eq!(handle_sync_exception_el2(&mut tf, esr(0x16, 5) as u64), SyncExceptionAction::Hypercall { iss: 5 });
    assert_eq!(
        handle_sync_exception_el2(&mut tf, esr(0x25, 0b0111) as u64),
        SyncExceptionAction::Abort {
            is_instruction: false,
            is_lower: false,
            iss: 0b0111,
            action: AbortAction { access_flags: MappingFlags::READ.bits(), dispatch: true },
        }
    );
    assert_eq!(tf.elr, 0x1000);
    assert_eq!(
        handle_sync_exception_el2(&mut tf, esr(0x3c, 0x42) as u64),
        SyncExceptionAction::Breakpoint { iss: 0x42 }
    );
    assert_eq!(tf.elr, 0x1004);
    assert_eq!(
        handle_sync_exception_el2(&mut tf, esr(0x07, 3) as u64),
        SyncExceptionAction::Unhandled { ec: 7, iss: 3 }
    );
    assert_eq!(tf.elr, 0x1004);
}
