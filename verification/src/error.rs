//! Errors reported by the engine.

use vstd::prelude::*;

use crate::engine::CS_ERR_OK;

verus! {

/// An error reported by the engine, carrying the engine's `cs_err` code.
///
/// A zero ("no error") code is allowed: the engine reports it, for instance,
/// when it ran out of bytes before it could decode a single instruction.
#[derive(Debug, Clone, Copy, PartialEq, Eq, Structural)]
pub struct CsErr {
    code: u32,
}

impl View for CsErr {
    type V = u32;

    /// The error is its code.
    closed spec fn view(&self) -> u32 {
        self.code
    }
}

impl CsErr {
    /// Create an error from a low-level `cs_err` code.
    pub fn new(code: u32) -> (r: CsErr)
        ensures
            r@ == code,
    {
        CsErr { code }
    }

    /// Get the low-level `cs_err` code.
    pub fn code(&self) -> (r: u32)
        ensures
            r == self@,
    {
        self.code
    }
}

/// Turn an engine status code into a `Result`: `Ok` for the "no error" code,
/// otherwise the error that carries the code.
pub fn to_res(code: u32) -> (r: Result<(), CsErr>)
    ensures
        r is Ok <==> code == CS_ERR_OK,
        r matches Err(e) ==> e@ == code,
{
    if code != CS_ERR_OK {
        Err(CsErr::new(code))
    } else {
        Ok(())
    }
}

} // verus!
