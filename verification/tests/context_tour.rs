use hv_tour::boot::{boot_mair_el2, boot_tcr_el2, switch_to_el1, El1Switch};
use hv_tour::boot_pt::init_boot_page_table;
use hv_tour::context::{FpState, TaskContext, TrapFrame, UspaceContext};
use hv_tour::tour::h_1_1::{load_vm_image, prepare_guest_context, prepare_vm_pgtable, vmexit_handler, VM_ENTRY};
use hv_tour::tour::h_4_1::{guest_memory_plan, handle_exit, is_passthrough_region, GuestMemoryPlan, Stage2Mapping};
use hv_tour::tour::m_1_2::{handle_page_fault, handle_syscall, init_user_stack, load_user_app, PageFaultOutcome, SyscallOutcome};
use hv_tour::mapping::Mapping;
use hv_tour::vcpu::{AxVCpuExitReason, AARCH64Vcpu, VmCpuRegisters, VmExitAction};
use page_table_entry::MappingFlags;

#[test]
fn trap_frame_arguments() {
    let mut tf = TrapFrame::default();
    for i in 0..31 {
        tf.r[i] = 100 + i as u64;
    }
    assert_eq!(
        [tf.arg0(), tf.arg1(), tf.arg2(), tf.arg3(), tf.arg4(), tf.arg5()],
        [100, 101, 102, 103, 104, 105]
    );
}

#[test]
fn uspace_context_accessors() {
    let mut c = UspaceContext::new(0x1000, 0x8000_0000);
    assert_eq!(c.get_ip(), 0x1000);
    assert_eq!(c.get_sp(), 0x8000_0000);
    assert_eq!(c.trap_frame().spsr, 0);
    c.set_ip(0x2000);
    c.set_sp(0x7fff_0000);
    c.set_retval(42);
    assert_eq!(c.get_ip(), 0x2000);
    assert_eq!(c.get_sp(), 0x7fff_0000);
    assert_eq!(c.trap_frame().arg0(), 42);
    let e = UspaceContext::empty();
    assert_eq!((e.get_ip(), e.get_sp()), (0, 0));
    let mut tf = TrapFrame::default();
    tf.elr = 0x4444;
    tf.usp = 0x5555;
    let f = UspaceContext::from(&tf);
    assert_eq!((f.get_ip(), f.get_sp()), (0x4444, 0x5555));
}

#[test]
fn fp_state_default_is_zero() {
    let f = FpState::default();
    assert!(f.regs.iter().all(|&v| v == 0));
    assert_eq!((f.fpcr, f.fpsr), (0, 0));
}

#[test]
fn boot_page_table_identity_map() {
    let mut l0 = [7u64; 512];
    let mut l1 = [0u64; 512];
    let page = |p: usize, f: usize, huge: bool| (p as u64) | ((f as u64) << 56) | if huge { 0 } else { 2 };
    let table = |p: usize| (p as u64) | 3;
    init_boot_page_table(&mut l0, &mut l1, 0x4008_1000, page, table);
    assert_eq!(l0[0], 0x4008_1003);
    assert!(l0[1..].iter().all(|&e| e == 7));
    let device = (MappingFlags::READ | MappingFlags::WRITE | MappingFlags::DEVICE).bits() as u64;
    let normal = (MappingFlags::READ | MappingFlags::WRITE | MappingFlags::EXECUTE).bits() as u64;
    assert_eq!(l1[0], device << 56);
    assert_eq!(l1[1], 0x4000_0000 | (normal << 56));
    assert_eq!(l1[511], 511 * 0x4000_0000 | (normal << 56));
}

#[test]
fn h_1_1_prepares_like_the_vcpu() {
    let mut ctx = VmCpuRegisters::default();
    prepare_guest_context(&mut ctx);
    let mut v = AARCH64Vcpu::init();
    v.set_entry(VM_ENTRY).unwrap();
    let r = v.regs();
    assert_eq!(ctx.guest_regs.elr_el2, 0x4020_0000);
    assert_eq!(ctx.guest_regs.hcr_el2, r.guest_regs.hcr_el2);
    assert_eq!(ctx.guest_regs.spsr_el2, r.guest_regs.spsr_el2);
    assert_eq!(ctx.guest_regs.elr_el2, r.guest_regs.elr_el2);
    assert_eq!(prepare_vm_pgtable(0x1234_5000), (0x1234_5000, 0x23f90));
}

#[test]
fn h_1_1_exits() {
    let mut ctx = VmCpuRegisters::default();
    ctx.guest_regs.gprs.x[0] = 0x8400_0008;
    assert_eq!(vmexit_handler(&ctx, 0x16 << 26), VmExitAction::Shutdown);
    assert_eq!(vmexit_handler(&ctx, 0x24 << 26), VmExitAction::UnhandledTrap { ec: 0x24 });
}

#[test]
fn m_1_2_syscalls_and_faults() {
    let mut tf = TrapFrame::default();
    tf.r[0] = 0xffff_ffff_0000_002a;
    assert_eq!(handle_syscall(&tf, 93), SyscallOutcome::Exit(42));
    assert_eq!(handle_syscall(&tf, 64), SyscallOutcome::Return(-38));
    assert_eq!(handle_page_fault(true, true), PageFaultOutcome::Handled);
    assert_eq!(handle_page_fault(true, false), PageFaultOutcome::KillTask { exit_code: -1 });
    assert_eq!(handle_page_fault(false, true), PageFaultOutcome::NotHandled);
    let rwu = (MappingFlags::READ | MappingFlags::WRITE | MappingFlags::USER).bits();
    assert_eq!(
        init_user_stack(0x8000_0000, true),
        (Mapping { start: 0x7fff_0000, size: 0x10000, flags: rwu, populate: true }, 0x8000_0000)
    );
    assert!(!init_user_stack(0x8000_0000, false).0.populate);
    let rwxu = (MappingFlags::READ | MappingFlags::WRITE | MappingFlags::EXECUTE | MappingFlags::USER).bits();
    let (code_page, code) = load_user_app();
    assert_eq!(code_page, Mapping { start: 0x1000, size: 0x1000, flags: rwxu, populate: true });
    assert_eq!(code, vec![0xa8, 0x0b, 0x80, 0xd2, 0x40, 0x05, 0x80, 0xd2, 0x01, 0x00, 0x00, 0xd4]);
    assert_eq!(load_vm_image(), Mapping { start: 0x4020_0000, size: 0x20000, flags: rwxu, populate: true });
}

#[test]
fn h_4_1_maps_faulting_page() {
    let rwxu = (MappingFlags::READ | MappingFlags::WRITE | MappingFlags::EXECUTE | MappingFlags::USER).bits();
    assert_eq!(handle_exit(AxVCpuExitReason::Nothing), None);
    assert_eq!(
        handle_exit(AxVCpuExitReason::PageFault { addr: 0x4123_4567, access_flags: 0 }),
        Some(Stage2Mapping { page: 0x4123_4000, size: 0x1000, flags: rwxu })
    );
    assert!(is_passthrough_region((MappingFlags::DEVICE | MappingFlags::READ).bits()));
    assert!(!is_passthrough_region(MappingFlags::READ.bits()));
}

#[test]
fn boot_drops_to_el1_by_level() {
    assert_eq!(switch_to_el1(1), El1Switch::StayHere);
    assert_eq!(switch_to_el1(0), El1Switch::StayHere);
    assert_eq!(switch_to_el1(2), El1Switch::FromEl2);
    assert_eq!(switch_to_el1(3), El1Switch::FromEl3);
}

#[test]
fn boot_mmu_registers() {
    assert_eq!(boot_tcr_el2(), 0x2_3510);
    assert_eq!(boot_mair_el2(), 0xff04);
}

#[test]
fn user_program_decodes_as_exit_42() {
    let (_, code) = load_user_app();
    let words: Vec<u32> = code.chunks(4).map(|c| u32::from_le_bytes([c[0], c[1], c[2], c[3]])).collect();
    // MOVZ Xd, #imm16: 0xd2800000 | imm16 << 5 | d
    assert_eq!(words[0], 0xd280_0000 | (93 << 5) | 8);
    assert_eq!(words[1], 0xd280_0000 | (42 << 5));
    assert_eq!(words[2], 0xd400_0001);
}

#[test]
fn h_4_1_guest_memory_plan() {
    let rwxu = (MappingFlags::READ | MappingFlags::WRITE | MappingFlags::EXECUTE | MappingFlags::USER).bits();
    assert_eq!(
        guest_memory_plan(),
        GuestMemoryPlan {
            aspace_base: 0,
            aspace_size: 0x7fff_ffff_f000,
            ram: Mapping { start: 0x4000_0000, size: 0x800_0000, flags: rwxu, populate: true },
            bootinfo_page: 0x4000_0000,
            bootinfo_size: 0x1000,
            kernel_base: 0x4008_0000,
        }
    );
}

#[test]
fn task_context_init_and_root() {
    let mut t = TaskContext::new();
    t.saved[2] = 19;
    t.init(0xdead_0000, 0xffff_0000_0010_0000, 0x5000, 0x4000_1000);
    assert_eq!(t.saved[0], 0xffff_0000_0010_0000);
    assert_eq!(t.saved[1], 0x5000);
    assert_eq!(t.saved[2], 19);
    assert_eq!(t.saved[13], 0xdead_0000);
    assert_eq!(t.page_table_root(), 0x4000_1000);
    let mut u = TaskContext::new();
    u.init(0, 0, 0, 0x4000_1000);
    assert!(!t.page_table_switch_needed(&u));
    u.set_page_table_root(0x9000);
    assert!(t.page_table_switch_needed(&u));
    assert_eq!(u.page_table_root(), 0x9000);
}

#[test]
fn vcpu_default_is_all_zero() {
    let mut v = AARCH64Vcpu::default();
    let r = v.regs();
    assert_eq!((r.guest_regs.hcr_el2, r.guest_regs.spsr_el2, r.guest_regs.elr_el2), (0, 0, 0));
    assert!(r.hyp_regs.gprs.x.iter().all(|&x| x == 0));
}
