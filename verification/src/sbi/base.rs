use vstd::prelude::*;

use crate::error::HvError;

verus! {

/// The functions of the SBI Base extension.
#[derive(Debug, Clone, Copy, PartialEq, Eq, Structural)]
pub enum BaseFunction {
    GetSepcificationVersion,
    GetImplementationID,
    GetImplementationVersion,
    ProbeSbiExtension(u64),
    GetMachineVendorID,
    GetMachineArchitectureID,
    GetMachineImplementationID,
}

/// What a Base-extension call with argument registers `args` (`a0` first,
/// function id in `a6`) means.
pub open spec fn base_decode(args: Seq<usize>) -> Result<BaseFunction, HvError> {
    let fid = args[6];
    if fid == 0 {
        Ok(BaseFunction::GetSepcificationVersion)
    } else if fid == 1 {
        Ok(BaseFunction::GetImplementationID)
    } else if fid == 2 {
        Ok(BaseFunction::GetImplementationVersion)
    } else if fid == 3 {
        Ok(BaseFunction::ProbeSbiExtension(args[0] as u64))
    } else if fid == 4 {
        Ok(BaseFunction::GetMachineVendorID)
    } else if fid == 5 {
        Ok(BaseFunction::GetMachineArchitectureID)
    } else if fid == 6 {
        Ok(BaseFunction::GetMachineImplementationID)
    } else {
        Err(HvError::NotFound)
    }
}

impl BaseFunction {
    /// Decodes a Base-extension call; an unknown function id is `NotFound`.
    pub fn from_regs(args: &[usize]) -> (r: Result<Self, HvError>)
        requires
            args@.len() >= 7,
        ensures
            r == base_decode(args@),
    {
        let fid = args[6];
        if fid == 0 {
            Ok(BaseFunction::GetSepcificationVersion)
        } else if fid == 1 {
            Ok(BaseFunction::GetImplementationID)
        } else if fid == 2 {
            Ok(BaseFunction::GetImplementationVersion)
        } else if fid == 3 {
            Ok(BaseFunction::ProbeSbiExtension(args[0] as u64))
        } else if fid == 4 {
            Ok(BaseFunction::GetMachineVendorID)
        } else if fid == 5 {
            Ok(BaseFunction::GetMachineArchitectureID)
        } else if fid == 6 {
            Ok(BaseFunction::GetMachineImplementationID)
        } else {
            Err(HvError::NotFound)
        }
    }
}

} // verus!
