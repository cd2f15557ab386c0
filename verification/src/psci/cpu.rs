use vstd::prelude::*;

use super::{PsciReturn, PSCI_ERR_NOT_SUPPORTED};
use crate::error::HvError;

verus! {

/// The CPU power-management calls of PSCI.
#[derive(Debug, Clone, Copy, PartialEq, Eq, Structural)]
pub enum CpuFunction {
    CpuSuspend { power_state: u32, entry_point: usize, context_id: usize },
    CpuOff,
    CpuOn { target_cpu: usize, entry_point: usize, context_id: usize },
}

impl CpuFunction {
    /// `CPU_SUSPEND`: power state in `x1` (its low 32 bits), entry point in
    /// `x2`, context id in `x3`.
    pub fn cpu_suspend(args: &[usize]) -> (r: Result<Self, HvError>)
        requires
            args@.len() >= 4,
        ensures
            r == Ok::<Self, HvError>(
                Self::CpuSuspend {
                    power_state: args@[1] as u32,
                    entry_point: args@[2],
                    context_id: args@[3],
                },
            ),
    {
        Ok(Self::CpuSuspend { power_state: args[1] as u32, entry_point: args[2], context_id: args[3] })
    }

    /// `CPU_ON`: target CPU in `x1`, entry point in `x2`, context id in `x3`.
    pub fn cpu_on(args: &[usize]) -> (r: Result<Self, HvError>)
        requires
            args@.len() >= 4,
        ensures
            r == Ok::<Self, HvError>(
                Self::CpuOn { target_cpu: args@[1], entry_point: args@[2], context_id: args@[3] },
            ),
    {
        Ok(Self::CpuOn { target_cpu: args[1], entry_point: args[2], context_id: args[3] })
    }

    /// Answers a CPU call: `CPU_OFF` succeeds with 0, suspending and
    /// powering on other CPUs are not supported.
    pub fn handle(&self) -> (r: PsciReturn)
        ensures
            r.value == (match *self {
                Self::CpuOff => 0i64,
                _ => PSCI_ERR_NOT_SUPPORTED as i64,
            }),
    {
        match self {
            Self::CpuSuspend { .. } => PsciReturn::error(PSCI_ERR_NOT_SUPPORTED),
            Self::CpuOff => PsciReturn::success(0),
            Self::CpuOn { .. } => PsciReturn::error(PSCI_ERR_NOT_SUPPORTED),
        }
    }
}

} // verus!
