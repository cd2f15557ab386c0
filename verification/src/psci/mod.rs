//! The Arm Power State Coordination Interface as seen by the hypervisor: the
//! calls a guest makes with `HVC`/`SMC`, decoded from its argument registers.

use vstd::prelude::*;

pub mod cpu;
pub mod system;
pub mod version;

pub use cpu::CpuFunction;
pub use system::SystemFunction;
pub use version::VersionFunction;

use crate::error::HvError;

verus! {

pub const PSCI_SUCCESS: i32 = 0;
pub const PSCI_ERR_NOT_SUPPORTED: i32 = -1;
pub const PSCI_ERR_INVALID_PARAMS: i32 = -2;
pub const PSCI_ERR_DENIED: i32 = -3;
pub const PSCI_ERR_ALREADY_ON: i32 = -4;
pub const PSCI_ERR_ON_PENDING: i32 = -5;
pub const PSCI_ERR_INTERNAL_FAILURE: i32 = -6;
pub const PSCI_ERR_NOT_PRESENT: i32 = -7;
pub const PSCI_ERR_DISABLED: i32 = -8;
pub const PSCI_ERR_INVALID_ADDRESS: i32 = -9;

/// `PSCI_VERSION`.
pub const PSCI_FN_VERSION: usize = 0x8400_0000;
/// `CPU_SUSPEND` (SMC32 calling convention).
pub const PSCI_FN_CPU_SUSPEND: usize = 0x8400_0001;
/// `CPU_OFF`.
pub const PSCI_FN_CPU_OFF: usize = 0x8400_0002;
/// `CPU_ON`, SMC32 calling convention.
pub const PSCI_FN_CPU_ON_32: usize = 0x8400_0003;
/// `CPU_ON`, SMC64 calling convention.
pub const PSCI_FN_CPU_ON_64: usize = 0xc400_0003;
/// `SYSTEM_OFF`.
pub const PSCI_FN_SYSTEM_OFF: usize = 0x8400_0008;
/// `SYSTEM_RESET`.
pub const PSCI_FN_SYSTEM_RESET: usize = 0x8400_0009;

/// The value a PSCI call hands back to the guest in `x0`.
#[derive(Debug, Clone, Copy, PartialEq, Eq, Structural)]
pub struct PsciReturn {
    pub value: i64,
}

impl PsciReturn {
    /// A successful call returning `value`.
    pub fn success(value: i64) -> (r: Self)
        ensures
            r.value == value,
    {
        Self { value }
    }

    /// A failed call returning the (negative) PSCI error `code`.
    pub fn error(code: i32) -> (r: Self)
        ensures
            r.value == code as i64,
    {
        Self { value: code as i64 }
    }
}

/// A decoded PSCI call.
#[derive(Debug, Clone, Copy, PartialEq, Eq, Structural)]
pub enum PsciMessage {
    Version(VersionFunction),
    Cpu(CpuFunction),
    System(SystemFunction),
}

/// The function identifiers whose decoding reads `x1`..`x3`.
pub open spec fn psci_needs_cpu_args(function_id: usize) -> bool {
    function_id == PSCI_FN_CPU_SUSPEND || function_id == PSCI_FN_CPU_ON_32
        || function_id == PSCI_FN_CPU_ON_64
}

/// What the argument registers `args` (`x0` first) of a PSCI call mean.
pub open spec fn psci_decode(args: Seq<usize>) -> Result<PsciMessage, HvError> {
    let id = args[0];
    if id == PSCI_FN_VERSION {
        Ok(PsciMessage::Version(VersionFunction))
    } else if id == PSCI_FN_CPU_SUSPEND {
        Ok(
            PsciMessage::Cpu(
                CpuFunction::CpuSuspend {
                    power_state: args[1] as u32,
                    entry_point: args[2],
                    context_id: args[3],
                },
            ),
        )
    } else if id == PSCI_FN_CPU_OFF {
        Ok(PsciMessage::Cpu(CpuFunction::CpuOff))
    } else if id == PSCI_FN_CPU_ON_32 || id == PSCI_FN_CPU_ON_64 {
        Ok(
            PsciMessage::Cpu(
                CpuFunction::CpuOn { target_cpu: args[1], entry_point: args[2], context_id: args[3] },
            ),
        )
    } else if id == PSCI_FN_SYSTEM_OFF {
        Ok(PsciMessage::System(SystemFunction::SystemOff))
    } else if id == PSCI_FN_SYSTEM_RESET {
        Ok(PsciMessage::System(SystemFunction::SystemReset { reset_type: args[1] as u32 }))
    } else {
        Err(HvError::NotFound)
    }
}

impl PsciMessage {
    /// Decodes a PSCI call from the guest's argument registers (`x0` holds
    /// the function identifier). An unknown identifier gives `NotFound`.
    pub fn from_regs(args: &[usize]) -> (r: Result<Self, HvError>)
        requires
            args@.len() >= 1,
            psci_needs_cpu_args(args@[0]) ==> args@.len() >= 4,
            args@[0] == PSCI_FN_SYSTEM_RESET ==> args@.len() >= 2,
        ensures
            r == psci_decode(args@),
    {
        let function_id = args[0];
        if function_id == PSCI_FN_VERSION {
            Ok(PsciMessage::Version(VersionFunction))
        } else if function_id == PSCI_FN_CPU_SUSPEND {
            match CpuFunction::cpu_suspend(args) {
                Ok(f) => Ok(PsciMessage::Cpu(f)),
                Err(e) => Err(e),
            }
        } else if function_id == PSCI_FN_CPU_OFF {
            Ok(PsciMessage::Cpu(CpuFunction::CpuOff))
        } else if function_id == PSCI_FN_CPU_ON_32 || function_id == PSCI_FN_CPU_ON_64 {
            match CpuFunction::cpu_on(args) {
                Ok(f) => Ok(PsciMessage::Cpu(f)),
                Err(e) => Err(e),
            }
        } else if function_id == PSCI_FN_SYSTEM_OFF {
            Ok(PsciMessage::System(SystemFunction::SystemOff))
        } else if function_id == PSCI_FN_SYSTEM_RESET {
            match SystemFunction::system_reset(args) {
                Ok(f) => Ok(PsciMessage::System(f)),
                Err(e) => Err(e),
            }
        } else {
            Err(HvError::NotFound)
        }
    }
}

/// `CPU_ON` means the same under the SMC32 and the SMC64 calling convention.
pub proof fn lemma_cpu_on_conventions_agree(args32: Seq<usize>, args64: Seq<usize>)
    requires
        args32.len() >= 4,
        args64.len() >= 4,
        args32[0] == PSCI_FN_CPU_ON_32,
        args64[0] == PSCI_FN_CPU_ON_64,
        args32.subrange(1, 4) == args64.subrange(1, 4),
    ensures
        psci_decode(args32) == psci_decode(args64),
{
    assert(args32[1] == args32.subrange(1, 4)[0]);
    assert(args32[2] == args32.subrange(1, 4)[1]);
    assert(args32[3] == args32.subrange(1, 4)[2]);
}


/// `CPU_ON`, under either calling convention, names the CPU to power on by
/// the whole of `x1` (its MPIDR affinity, all levels), with the entry point
/// from `x2` and the context id from `x3`, unchanged.
pub proof fn lemma_cpu_on_takes_registers_whole(args: Seq<usize>)
    requires
        args.len() >= 4,
        args[0] == PSCI_FN_CPU_ON_32 || args[0] == PSCI_FN_CPU_ON_64,
    ensures
        psci_decode(args) == Ok::<PsciMessage, HvError>(
            PsciMessage::Cpu(
                CpuFunction::CpuOn { target_cpu: args[1], entry_point: args[2], context_id: args[3] },
            ),
        ),
        forall|t: usize, e: usize, c: usize|
            psci_decode(args) == Ok::<PsciMessage, HvError>(
                PsciMessage::Cpu(CpuFunction::CpuOn { target_cpu: t, entry_point: e, context_id: c }),
            ) ==> t == args[1] && e == args[2] && c == args[3],
{
}

/// Every function identifier PSCI defines here decodes, each to its own
/// call; only identifiers outside that list are `NotFound`.
pub proof fn lemma_psci_known_ids_decode(args: Seq<usize>)
    requires
        args.len() >= 4,
    ensures
        args[0] == PSCI_FN_VERSION ==> psci_decode(args) == Ok::<PsciMessage, HvError>(
            PsciMessage::Version(VersionFunction),
        ),
        args[0] == PSCI_FN_CPU_OFF ==> psci_decode(args) == Ok::<PsciMessage, HvError>(
            PsciMessage::Cpu(CpuFunction::CpuOff),
        ),
        args[0] == PSCI_FN_SYSTEM_OFF ==> psci_decode(args) == Ok::<PsciMessage, HvError>(
            PsciMessage::System(SystemFunction::SystemOff),
        ),
        (psci_decode(args) is Err) <==> !(args[0] == PSCI_FN_VERSION || args[0]
            == PSCI_FN_CPU_SUSPEND || args[0] == PSCI_FN_CPU_OFF || args[0] == PSCI_FN_CPU_ON_32
            || args[0] == PSCI_FN_CPU_ON_64 || args[0] == PSCI_FN_SYSTEM_OFF || args[0]
            == PSCI_FN_SYSTEM_RESET),
        (psci_decode(args) is Err) ==> psci_decode(args) == Err::<PsciMessage, HvError>(
            HvError::NotFound,
        ),
{
}


/// `CPU_SUSPEND` and `SYSTEM_RESET` take their 32-bit parameter from the low
/// half of `x1`; `CPU_SUSPEND` takes its entry point and context id from
/// `x2` and `x3` unchanged.
pub proof fn lemma_psci_parameters_from_registers(args: Seq<usize>)
    requires
        args.len() >= 4,
    ensures
        args[0] == PSCI_FN_CPU_SUSPEND ==> (psci_decode(args) matches Ok(
            PsciMessage::Cpu(CpuFunction::CpuSuspend { power_state, entry_point, context_id }),
        ) && power_state as int == args[1] as int % 0x1_0000_0000 && entry_point == args[2]
            && context_id == args[3]),
        args[0] == PSCI_FN_SYSTEM_RESET ==> (psci_decode(args) matches Ok(
            PsciMessage::System(SystemFunction::SystemReset { reset_type }),
        ) && reset_type as int == args[1] as int % 0x1_0000_0000),
{
    let x = args[1];
    assert(x as u32 as int == x as int % 0x1_0000_0000) by (bit_vector);
}

} // verus!
