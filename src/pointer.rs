//! The typed-pointer placeholder.

use vstd::prelude::*;
use vstd::string::*;

use crate::error::CtypesError;
use crate::host::HostValue;

verus! {

/// A marker for a future typed pointer; it holds nothing.
#[derive(Debug)]
pub struct PyCPointer {}

impl PyCPointer {
    /// A new placeholder.
    pub fn new() -> (r: PyCPointer) {
        PyCPointer {}
    }

    /// The debugging text of the placeholder.
    pub fn debug_text(&self) -> (r: String)
        ensures
            r@ == "_Pointer {}"@,
    {
        String::from_str("_Pointer {}")
    }

    /// The argument conversion hook, which has no implementation: it always
    /// reports that, so that no caller mistakes a value for a pointer.
    pub fn from_param(value: &HostValue) -> (r: Result<HostValue, CtypesError>)
        ensures
            r == Err::<HostValue, CtypesError>(CtypesError::NotImplementedError),
    {
        Err(CtypesError::NotImplementedError)
    }
}

} // verus!
