use vstd::prelude::*;

use super::{PsciReturn, PSCI_SUCCESS};
use crate::error::HvError;

verus! {

/// The system-wide power calls of PSCI.
#[derive(Debug, Clone, Copy, PartialEq, Eq, Structural)]
pub enum SystemFunction {
    SystemOff,
    SystemReset { reset_type: u32 },
}

impl SystemFunction {
    /// `SYSTEM_RESET`: the reset type is the low 32 bits of `x1`.
    pub fn system_reset(args: &[usize]) -> (r: Result<Self, HvError>)
        requires
            args@.len() >= 2,
        ensures
            r == Ok::<Self, HvError>(Self::SystemReset { reset_type: args@[1] as u32 }),
    {
        Ok(Self::SystemReset { reset_type: args[1] as u32 })
    }

    /// Both system calls are acknowledged with `PSCI_SUCCESS`.
    pub fn handle(&self) -> (r: PsciReturn)
        ensures
            r.value == PSCI_SUCCESS as i64,
    {
        match self {
            Self::SystemOff => PsciReturn::success(PSCI_SUCCESS as i64),
            Self::SystemReset { .. } => PsciReturn::success(PSCI_SUCCESS as i64),
        }
    }
}

} // verus!
