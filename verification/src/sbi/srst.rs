use vstd::prelude::*;

use crate::error::HvError;

verus! {

/// The functions of the SBI System Reset extension.
#[derive(Debug, Clone, Copy, PartialEq, Eq, Structural)]
pub enum ResetFunction {
    Reset { reset_type: ResetType, reason: ResetReason },
}

/// The reset types of `sbi_system_reset`.
#[derive(Debug, Clone, Copy, PartialEq, Eq, Structural)]
pub enum ResetType {
    Shutdown,
    ColdReset,
    WarmReset,
}

/// The reset reasons of `sbi_system_reset`.
#[derive(Debug, Clone, Copy, PartialEq, Eq, Structural)]
pub enum ResetReason {
    NoReason,
    SystemFailure,
}

impl ResetType {
    /// The number that stands for this reset type in `a0`.
    pub open spec fn code(self) -> usize {
        match self {
            ResetType::Shutdown => 0,
            ResetType::ColdReset => 1,
            ResetType::WarmReset => 2,
        }
    }

    /// What `a0` means as a reset type.
    pub open spec fn decode(a0: usize) -> Result<ResetType, HvError> {
        if a0 == 0 {
            Ok(ResetType::Shutdown)
        } else if a0 == 1 {
            Ok(ResetType::ColdReset)
        } else if a0 == 2 {
            Ok(ResetType::WarmReset)
        } else {
            Err(HvError::InvalidInput)
        }
    }

    /// Reads a reset type from `a0`; other values are `InvalidInput`.
    pub fn from_reg(a0: usize) -> (r: Result<Self, HvError>)
        ensures
            r == Self::decode(a0),
    {
        if a0 == 0 {
            Ok(ResetType::Shutdown)
        } else if a0 == 1 {
            Ok(ResetType::ColdReset)
        } else if a0 == 2 {
            Ok(ResetType::WarmReset)
        } else {
            Err(HvError::InvalidInput)
        }
    }
}

impl ResetReason {
    /// The number that stands for this reason in `a1`.
    pub open spec fn code(self) -> usize {
        match self {
            ResetReason::NoReason => 0,
            ResetReason::SystemFailure => 1,
        }
    }

    /// What `a1` means as a reset reason.
    pub open spec fn decode(a1: usize) -> Result<ResetReason, HvError> {
        if a1 == 0 {
            Ok(ResetReason::NoReason)
        } else if a1 == 1 {
            Ok(ResetReason::SystemFailure)
        } else {
            Err(HvError::InvalidInput)
        }
    }

    /// Reads a reset reason from `a1`; other values are `InvalidInput`.
    pub fn from_reg(a1: usize) -> (r: Result<Self, HvError>)
        ensures
            r == Self::decode(a1),
    {
        if a1 == 0 {
            Ok(ResetReason::NoReason)
        } else if a1 == 1 {
            Ok(ResetReason::SystemFailure)
        } else {
            Err(HvError::InvalidInput)
        }
    }
}

/// What a System Reset call with argument registers `args` means: function 0
/// resets with the type in `a0` and the reason in `a1`.
pub open spec fn srst_decode(args: Seq<usize>) -> Result<ResetFunction, HvError> {
    if args[6] == 0 {
        match (ResetType::decode(args[0]), ResetReason::decode(args[1])) {
            (Ok(t), Ok(why)) => Ok(ResetFunction::Reset { reset_type: t, reason: why }),
            _ => Err(HvError::InvalidInput),
        }
    } else {
        Err(HvError::InvalidInput)
    }
}

impl ResetFunction {
    /// Decodes a System Reset call; an unknown function, type or reason is
    /// `InvalidInput`.
    pub fn from_regs(args: &[usize]) -> (r: Result<Self, HvError>)
        requires
            args@.len() >= 7,
        ensures
            r == srst_decode(args@),
    {
        if args[6] == 0 {
            let reset_type = match ResetType::from_reg(args[0]) {
                Ok(t) => t,
                Err(e) => return Err(e),
            };
            let reason = match ResetReason::from_reg(args[1]) {
                Ok(why) => why,
                Err(e) => return Err(e),
            };
            Ok(ResetFunction::Reset { reset_type, reason })
        } else {
            Err(HvError::InvalidInput)
        }
    }

    /// The request to shut the machine down for no particular reason.
    pub fn shutdown() -> (r: Self)
        ensures
            r == (ResetFunction::Reset {
                reset_type: ResetType::Shutdown,
                reason: ResetReason::NoReason,
            }),
    {
        ResetFunction::Reset { reset_type: ResetType::Shutdown, reason: ResetReason::NoReason }
    }
}

/// A reset type read back from its own number is that reset type.
pub proof fn lemma_reset_type_code_roundtrip(t: ResetType)
    ensures
        ResetType::decode(t.code()) == Ok::<ResetType, HvError>(t),
{
}

/// A reset reason read back from its own number is that reason.
pub proof fn lemma_reset_reason_code_roundtrip(why: ResetReason)
    ensures
        ResetReason::decode(why.code()) == Ok::<ResetReason, HvError>(why),
{
}

} // verus!
