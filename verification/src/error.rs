use vstd::prelude::*;

verus! {

/// Why a trapped guest request could not be decoded.
///
/// `NotFound` is reported for an unknown extension or function identifier,
/// `InvalidInput` for a known function whose parameters are out of range.
#[derive(Debug, Clone, Copy, PartialEq, Eq, Structural)]
pub enum HvError {
    NotFound,
    InvalidInput,
}

} // verus!
