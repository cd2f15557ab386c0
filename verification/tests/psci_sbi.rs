use hv_tour::error::HvError;
use hv_tour::psci::{
    CpuFunction, PsciMessage, PsciReturn, SystemFunction, VersionFunction, PSCI_ERR_NOT_SUPPORTED,
};
use hv_tour::sbi::{
    BaseFunction, PmuFunction, ResetFunction, ResetReason, ResetType, SbiMessage,
};

const EID_TIME: usize = 0x5449_4D45;
const EID_SRST: usize = 0x5352_5354;
const EID_PMU: usize = 0x0050_4D55;

fn sbi_args(a0: usize, a1: usize, a2: usize, fid: usize, eid: usize) -> [usize; 8] {
    [a0, a1, a2, 0, 0, 0, fid, eid]
}

#[test]
fn psci_return_constructors() {
    assert_eq!(PsciReturn::success(7).value, 7);
    assert_eq!(PsciReturn::error(-3).value, -3);
}

#[test]
fn psci_decodes_version_and_answers_1_0() {
    let msg = PsciMessage::from_regs(&[0x8400_0000, 0, 0, 0]).unwrap();
    assert_eq!(msg, PsciMessage::Version(VersionFunction));
    assert_eq!(VersionFunction.handle().value, 0x0001_0000);
}

#[test]
fn psci_decodes_cpu_suspend_truncating_power_state() {
    let msg = PsciMessage::from_regs(&[0x8400_0001, 0x1_0000_0002, 0x4000_0000, 9]).unwrap();
    assert_eq!(
        msg,
        PsciMessage::Cpu(CpuFunction::CpuSuspend { power_state: 2, entry_point: 0x4000_0000, context_id: 9 })
    );
    assert_eq!(CpuFunction::CpuSuspend { power_state: 0, entry_point: 0, context_id: 0 }.handle().value, -1);
}

#[test]
fn psci_decodes_cpu_off_and_on() {
    assert_eq!(PsciMessage::from_regs(&[0x8400_0002]).unwrap(), PsciMessage::Cpu(CpuFunction::CpuOff));
    assert_eq!(CpuFunction::CpuOff.handle().value, 0);
    let on32 = PsciMessage::from_regs(&[0x8400_0003, 1, 0x8000, 5]).unwrap();
    let on64 = PsciMessage::from_regs(&[0xc400_0003, 1, 0x8000, 5]).unwrap();
    assert_eq!(on32, on64);
    assert_eq!(on32, PsciMessage::Cpu(CpuFunction::CpuOn { target_cpu: 1, entry_point: 0x8000, context_id: 5 }));
    assert_eq!(
        CpuFunction::CpuOn { target_cpu: 1, entry_point: 0, context_id: 0 }.handle().value,
        PSCI_ERR_NOT_SUPPORTED as i64
    );
}

#[test]
fn psci_decodes_system_calls() {
    assert_eq!(
        PsciMessage::from_regs(&[0x8400_0008]).unwrap(),
        PsciMessage::System(SystemFunction::SystemOff)
    );
    assert_eq!(
        PsciMessage::from_regs(&[0x8400_0009, 0xffff_ffff_0000_0001]).unwrap(),
        PsciMessage::System(SystemFunction::SystemReset { reset_type: 1 })
    );
    assert_eq!(SystemFunction::SystemOff.handle().value, 0);
    assert_eq!(SystemFunction::SystemReset { reset_type: 3 }.handle().value, 0);
}

#[test]
fn psci_unknown_function_is_not_found() {
    assert_eq!(PsciMessage::from_regs(&[0x8400_0004, 0, 0, 0]), Err(HvError::NotFound));
    assert_eq!(PsciMessage::from_regs(&[0]), Err(HvError::NotFound));
}

#[test]
fn psci_direct_constructors() {
    assert_eq!(
        CpuFunction::cpu_on(&[0, 2, 3, 4]),
        Ok(CpuFunction::CpuOn { target_cpu: 2, entry_point: 3, context_id: 4 })
    );
    assert_eq!(
        CpuFunction::cpu_suspend(&[0, 2, 3, 4]),
        Ok(CpuFunction::CpuSuspend { power_state: 2, entry_point: 3, context_id: 4 })
    );
    assert_eq!(SystemFunction::system_reset(&[0, 2]), Ok(SystemFunction::SystemReset { reset_type: 2 }));
}

#[test]
fn sbi_base_functions() {
    for (fid, want) in [
        (0, BaseFunction::GetSepcificationVersion),
        (1, BaseFunction::GetImplementationID),
        (2, BaseFunction::GetImplementationVersion),
        (3, BaseFunction::ProbeSbiExtension(0x10)),
        (4, BaseFunction::GetMachineVendorID),
        (5, BaseFunction::GetMachineArchitectureID),
        (6, BaseFunction::GetMachineImplementationID),
    ] {
        assert_eq!(SbiMessage::from_regs(&sbi_args(0x10, 0, 0, fid, 0x10)), Ok(SbiMessage::Base(want)));
    }
    assert_eq!(SbiMessage::from_regs(&sbi_args(0, 0, 0, 7, 0x10)), Err(HvError::NotFound));
    assert_eq!(BaseFunction::from_regs(&sbi_args(0, 0, 0, 9, 0x10)), Err(HvError::NotFound));
}

#[test]
fn sbi_legacy_calls() {
    assert_eq!(SbiMessage::from_regs(&sbi_args(b'x' as usize, 0, 0, 0, 1)), Ok(SbiMessage::PutChar(b'x' as usize)));
    assert_eq!(SbiMessage::from_regs(&sbi_args(0, 0, 0, 0, 2)), Ok(SbiMessage::GetChar));
    assert_eq!(SbiMessage::from_regs(&sbi_args(1234, 0, 0, 0, 0)), Ok(SbiMessage::SetTimer(1234)));
    assert_eq!(SbiMessage::from_regs(&sbi_args(0, 0, 0, 0, 8)), Ok(SbiMessage::Reset(ResetFunction::shutdown())));
}

#[test]
fn sbi_timer_extension_matches_legacy_timer() {
    assert_eq!(
        SbiMessage::from_regs(&sbi_args(99, 0, 0, 0, EID_TIME)),
        SbiMessage::from_regs(&sbi_args(99, 0, 0, 0, 0))
    );
}

#[test]
fn sbi_system_reset() {
    assert_eq!(
        SbiMessage::from_regs(&sbi_args(1, 1, 0, 0, EID_SRST)),
        Ok(SbiMessage::Reset(ResetFunction::Reset {
            reset_type: ResetType::ColdReset,
            reason: ResetReason::SystemFailure
        }))
    );
    assert_eq!(SbiMessage::from_regs(&sbi_args(3, 0, 0, 0, EID_SRST)), Err(HvError::InvalidInput));
    assert_eq!(SbiMessage::from_regs(&sbi_args(0, 2, 0, 0, EID_SRST)), Err(HvError::InvalidInput));
    assert_eq!(SbiMessage::from_regs(&sbi_args(0, 0, 0, 1, EID_SRST)), Err(HvError::InvalidInput));
    assert_eq!(ResetType::from_reg(2), Ok(ResetType::WarmReset));
    assert_eq!(ResetType::from_reg(0), Ok(ResetType::Shutdown));
    assert_eq!(ResetReason::from_reg(0), Ok(ResetReason::NoReason));
    assert_eq!(ResetReason::from_reg(5), Err(HvError::InvalidInput));
    assert_eq!(
        ResetFunction::shutdown(),
        ResetFunction::Reset { reset_type: ResetType::Shutdown, reason: ResetReason::NoReason }
    );
}

#[test]
fn sbi_pmu_calls() {
    assert_eq!(SbiMessage::from_regs(&sbi_args(0, 0, 0, 0, EID_PMU)), Ok(SbiMessage::PMU(PmuFunction::GetNumCounters)));
    assert_eq!(
        SbiMessage::from_regs(&sbi_args(4, 0, 0, 1, EID_PMU)),
        Ok(SbiMessage::PMU(PmuFunction::GetCounterInfo(4)))
    );
    assert_eq!(
        PmuFunction::from_regs(&sbi_args(1, 2, 3, 4, EID_PMU)),
        Ok(PmuFunction::StopCounter { counter_index: 1, counter_mask: 2, stop_flags: 3 })
    );
}

#[test]
fn sbi_unknown_extension_is_not_found() {
    assert_eq!(SbiMessage::from_regs(&sbi_args(0, 0, 0, 0, 0x0a00_0000)), Err(HvError::NotFound));
    assert_eq!(SbiMessage::from_regs(&sbi_args(0, 0, 0, 0, 3)), Err(HvError::NotFound));
}

#[test]
fn sbi_extension_ids_come_from_sbi_spec() {
    assert_eq!(sbi_spec::time::EID_TIME, EID_TIME);
    assert_eq!(sbi_spec::srst::EID_SRST, EID_SRST);
    assert_eq!(sbi_spec::pmu::EID_PMU, EID_PMU);
}
