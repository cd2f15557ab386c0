use vstd::prelude::*;

verus! {

/// The functions of the SBI Debug Console extension.
#[derive(Debug, Clone, Copy, PartialEq, Eq, Structural)]
pub enum DebugConsoleFunction {
    PutString { len: u64, addr: u64 },
}

} // verus!
