use vstd::prelude::*;

use super::PsciReturn;

verus! {

/// `PSCI_VERSION`: the guest asks which PSCI version is implemented.
#[derive(Debug, Clone, Copy, PartialEq, Eq, Structural)]
pub struct VersionFunction;

/// PSCI 1.0, encoded as major version in bits 31:16 and minor in bits 15:0.
pub const PSCI_VERSION_1_0: i64 = 0x0001_0000;

impl VersionFunction {
    /// Answers with PSCI version 1.0.
    pub fn handle(&self) -> (r: PsciReturn)
        ensures
            r.value == PSCI_VERSION_1_0,
    {
        PsciReturn::success(0x0001_0000)
    }
}

} // verus!
