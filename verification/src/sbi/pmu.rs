use vstd::prelude::*;

use crate::error::HvError;

verus! {

/// The functions of the SBI Performance Monitoring Unit extension that are
/// understood.
#[derive(Debug, Clone, Copy, PartialEq, Eq, Structural)]
pub enum PmuFunction {
    GetNumCounters,
    GetCounterInfo(u64),
    StopCounter { counter_index: u64, counter_mask: u64, stop_flags: u64 },
}

/// The PMU function ids that are understood: 0, 1 and 4.
pub open spec fn pmu_supported(fid: usize) -> bool {
    fid == 0 || fid == 1 || fid == 4
}

/// What a PMU call with argument registers `args` means.
pub open spec fn pmu_decode(args: Seq<usize>) -> PmuFunction {
    let fid = args[6];
    if fid == 0 {
        PmuFunction::GetNumCounters
    } else if fid == 1 {
        PmuFunction::GetCounterInfo(args[0] as u64)
    } else {
        PmuFunction::StopCounter {
            counter_index: args[0] as u64,
            counter_mask: args[1] as u64,
            stop_flags: args[2] as u64,
        }
    }
}

impl PmuFunction {
    /// Decodes a PMU call. Other function ids are not supported, and the
    /// caller may not pass them.
    pub fn from_regs(args: &[usize]) -> (r: Result<Self, HvError>)
        requires
            args@.len() >= 7,
            pmu_supported(args@[6]),
        ensures
            r == Ok::<Self, HvError>(pmu_decode(args@)),
    {
        let fid = args[6];
        if fid == 0 {
            Ok(Self::GetNumCounters)
        } else if fid == 1 {
            Ok(Self::GetCounterInfo(args[0] as u64))
        } else {
            Ok(
                Self::StopCounter {
                    counter_index: args[0] as u64,
                    counter_mask: args[1] as u64,
                    stop_flags: args[2] as u64,
                },
            )
        }
    }
}

} // verus!
