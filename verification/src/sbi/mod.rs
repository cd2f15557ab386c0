//! The RISC-V Supervisor Binary Interface as seen by the hypervisor: the
//! calls a guest makes with `ecall`, decoded from its argument registers
//! `a0`..`a7` (extension id in `a7`, function id in `a6`).

use vstd::prelude::*;

pub mod base;
pub mod dbcn;
pub(crate) mod eid;
pub mod pmu;
pub mod srst;

pub use base::BaseFunction;
pub use dbcn::DebugConsoleFunction;
pub use pmu::PmuFunction;
pub use srst::{ResetFunction, ResetReason, ResetType};

use crate::error::HvError;
use base::base_decode;
use eid::{
    eid_base, eid_base_value, eid_pmu, eid_pmu_value, eid_rfnc_value, eid_srst, eid_srst_value,
    eid_time, eid_time_value, legacy_console_getchar, legacy_console_getchar_value,
    legacy_console_putchar, legacy_console_putchar_value, legacy_set_timer,
    legacy_set_timer_value, legacy_shutdown, legacy_shutdown_value,
};
use pmu::{pmu_decode, pmu_supported};
use srst::srst_decode;

verus! {

pub const SBI_SUCCESS: usize = 0;
pub const SBI_ERR_FAILUER: isize = -1;
pub const SBI_ERR_NOT_SUPPORTED: isize = -2;
pub const SBI_ERR_INAVLID_PARAM: isize = -3;
pub const SBI_ERR_DENIED: isize = -4;
pub const SBI_ERR_INVALID_ADDRESS: isize = -5;
pub const SBI_ERR_ALREADY_AVAILABLE: isize = -6;

/// The pair of values a standard SBI call returns in `a0` and `a1`.
#[derive(Debug, Clone, Copy, PartialEq, Eq, Structural)]
pub struct SbiReturn {
    pub error_code: i64,
    pub return_value: i64,
}

/// What an SBI call returns: a legacy call one value, a standard call a pair.
#[derive(Debug, Clone, Copy, PartialEq, Eq, Structural)]
pub enum SbiReturnTyoe {
    Legacy(u64),
    Standard(SbiReturn),
}

/// A decoded SBI call.
#[derive(Debug, Clone, Copy, PartialEq, Eq, Structural)]
pub enum SbiMessage {
    Base(BaseFunction),
    GetChar,
    PutChar(usize),
    SetTimer(usize),
    DebugConsole(DebugConsoleFunction),
    Reset(ResetFunction),
    PMU(PmuFunction),
}

/// The argument registers that can be decoded: all eight are present, the
/// extension is not Remote Fence, and a PMU call names a supported function.
/// This library holds no decoder for the Remote Fence extension (there is no
/// `RemoteFenceFunction` here), so its calls are outside what `from_regs`
/// accepts.
pub open spec fn sbi_args_decodable(args: Seq<usize>) -> bool {
    &&& args.len() >= 8
    &&& args[7] != eid_rfnc_value()
    &&& args[7] == eid_pmu_value() ==> pmu_supported(args[6])
}

/// What an SBI call with argument registers `args` means.
pub open spec fn sbi_decode(args: Seq<usize>) -> Result<SbiMessage, HvError> {
    let eid = args[7];
    if eid == eid_base_value() {
        match base_decode(args) {
            Ok(f) => Ok(SbiMessage::Base(f)),
            Err(e) => Err(e),
        }
    } else if eid == legacy_console_putchar_value() {
        Ok(SbiMessage::PutChar(args[0]))
    } else if eid == legacy_console_getchar_value() {
        Ok(SbiMessage::GetChar)
    } else if eid == legacy_set_timer_value() || eid == eid_time_value() {
        Ok(SbiMessage::SetTimer(args[0]))
    } else if eid == legacy_shutdown_value() {
        Ok(
            SbiMessage::Reset(
                ResetFunction::Reset {
                    reset_type: ResetType::Shutdown,
                    reason: ResetReason::NoReason,
                },
            ),
        )
    } else if eid == eid_srst_value() {
        match srst_decode(args) {
            Ok(f) => Ok(SbiMessage::Reset(f)),
            Err(e) => Err(e),
        }
    } else if eid == eid_pmu_value() {
        Ok(SbiMessage::PMU(pmu_decode(args)))
    } else {
        Err(HvError::NotFound)
    }
}

impl SbiMessage {
    /// Decodes an SBI call from the guest's argument registers. An unknown
    /// extension is `NotFound`; the extensions' own decoders report the rest.
    /// Remote Fence calls may not be passed (see `sbi_args_decodable`).
    pub fn from_regs(args: &[usize]) -> (r: Result<Self, HvError>)
        requires
            sbi_args_decodable(args@),
        ensures
            r == sbi_decode(args@),
    {
        let eid = args[7];
        if eid == eid_base() {
            match BaseFunction::from_regs(args) {
                Ok(f) => Ok(SbiMessage::Base(f)),
                Err(e) => Err(e),
            }
        } else if eid == legacy_console_putchar() {
            Ok(SbiMessage::PutChar(args[0]))
        } else if eid == legacy_console_getchar() {
            Ok(SbiMessage::GetChar)
        } else if eid == legacy_set_timer() {
            Ok(SbiMessage::SetTimer(args[0]))
        } else if eid == legacy_shutdown() {
            Ok(SbiMessage::Reset(ResetFunction::shutdown()))
        } else if eid == eid_time() {
            Ok(SbiMessage::SetTimer(args[0]))
        } else if eid == eid_srst() {
            match ResetFunction::from_regs(args) {
                Ok(f) => Ok(SbiMessage::Reset(f)),
                Err(e) => Err(e),
            }
        } else if eid == eid_pmu() {
            match PmuFunction::from_regs(args) {
                Ok(f) => Ok(SbiMessage::PMU(f)),
                Err(e) => Err(e),
            }
        } else {
            Err(HvError::NotFound)
        }
    }
}

/// The legacy timer call and the Timer extension both set the timer to `a0`.
pub proof fn lemma_timer_calls_agree(legacy: Seq<usize>, time: Seq<usize>)
    requires
        legacy.len() >= 8,
        time.len() >= 8,
        legacy[7] == legacy_set_timer_value(),
        time[7] == eid_time_value(),
        legacy[0] == time[0],
    ensures
        sbi_decode(legacy) == sbi_decode(time),
        sbi_decode(time) == Ok::<SbiMessage, HvError>(SbiMessage::SetTimer(time[0])),
{
}

/// A System Reset call of function 0 whose `a0` and `a1` are the numbers of
/// a reset type and a reset reason decodes to a reset of that type for that
/// reason.
pub proof fn lemma_reset_call_roundtrip(args: Seq<usize>, t: ResetType, why: ResetReason)
    requires
        args.len() >= 8,
        args[7] == eid_srst_value(),
        args[6] == 0,
        args[0] == t.code(),
        args[1] == why.code(),
    ensures
        sbi_decode(args) == Ok::<SbiMessage, HvError>(
            SbiMessage::Reset(ResetFunction::Reset { reset_type: t, reason: why }),
        ),
{
}


/// A Base-extension `probe_extension` call asks about the extension whose
/// full identifier is in `a0`: no bit of it is lost.
pub proof fn lemma_probe_extension_keeps_id(args: Seq<usize>)
    requires
        args.len() >= 8,
        args[7] == eid_base_value(),
        args[6] == 3,
    ensures
        sbi_decode(args) == Ok::<SbiMessage, HvError>(
            SbiMessage::Base(BaseFunction::ProbeSbiExtension(args[0] as u64)),
        ),
        forall|id: u64|
            sbi_decode(args) == Ok::<SbiMessage, HvError>(
                SbiMessage::Base(BaseFunction::ProbeSbiExtension(id)),
            ) ==> id as usize == args[0],
{
}


/// The console and timer calls carry `a0` in full: a legacy
/// `console_putchar` puts the character in `a0`, and the legacy and Timer
/// extension `set_timer` calls set the timer to `a0`.
pub proof fn lemma_calls_carry_a0(args: Seq<usize>)
    requires
        args.len() >= 8,
    ensures
        args[7] == legacy_console_putchar_value() ==> sbi_decode(args) == Ok::<SbiMessage, HvError>(
            SbiMessage::PutChar(args[0]),
        ),
        args[7] == legacy_set_timer_value() || args[7] == eid_time_value() ==> sbi_decode(args)
            == Ok::<SbiMessage, HvError>(SbiMessage::SetTimer(args[0])),
        args[7] == legacy_console_getchar_value() ==> sbi_decode(args) == Ok::<SbiMessage, HvError>(
            SbiMessage::GetChar,
        ),
{
}

} // verus!
