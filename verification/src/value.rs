//! Handles to engine values that contexts keep.

use vstd::prelude::*;

verus! {

/// A callable engine value, known by its handle. The library never calls it:
/// it keeps it until the caller hands it back to the engine.
#[derive(Clone, Copy, Debug, PartialEq, Eq, Structural)]
pub struct Function {
    pub raw: usize,
}

impl Function {
    /// The function behind an engine handle.
    pub fn from_raw(reference: usize) -> (function: Function)
        ensures
            function == (Function { raw: reference }),
    {
        Function { raw: reference }
    }

    /// The engine handle of the function.
    pub fn as_raw(&self) -> (reference: usize)
        ensures
            reference == self.raw,
    {
        self.raw
    }
}

} // verus!
