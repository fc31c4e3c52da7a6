//! The one way an operation fails: the engine said no.

use vstd::prelude::*;

verus! {

/// The status code with which the engine reports success.
pub const NO_ERROR: u32 = 0;

/// A failed engine call, with the engine's own status code.
#[derive(Clone, Copy, Debug, PartialEq, Eq, Structural)]
pub struct EngineError {
    pub code: u32,
}

impl EngineError {
    /// Turns an engine status into a result: `NO_ERROR` is success, every
    /// other code is an error that carries the code.
    pub fn check(status: u32) -> (r: Result<(), EngineError>)
        ensures
            r == Self::checked(status),
    {
        if status == NO_ERROR {
            Ok(())
        } else {
            Err(EngineError { code: status })
        }
    }

    /// What `check` returns for a status.
    pub open spec fn checked(status: u32) -> Result<(), EngineError> {
        if status == NO_ERROR {
            Ok(())
        } else {
            Err(EngineError { code: status })
        }
    }
}

} // verus!
