//! The state of an open engine handle and the decisions taken on the engine's
//! replies.
//!
//! The engine is reached through its C interface by the caller; each method
//! here takes what the engine answered and decides what the handle reports.

use vstd::prelude::*;

use crate::buffer::InstrBuf;
use crate::engine::{Arch, OptType, CS_ERR_OK, CS_OPT_ON};
use crate::error::{to_res, CsErr};
use crate::instr::RawInsn;

verus! {

/// Whether details are on after the option `typ` was set to `value` and the
/// engine answered `err`, when they were `before`: only a successful setting
/// of the detail option changes it, and it then turns them on exactly for the
/// "on" value.
pub open spec fn details_after_option(before: bool, typ: OptType, value: u32, err: u32) -> bool {
    if err == CS_ERR_OK && typ == OptType::Detail {
        value == CS_OPT_ON
    } else {
        before
    }
}

/// Whether details are on after a newly opened handle (details off) was
/// given the option settings of `history` in turn, each as the option type,
/// the value and the engine's answer.
pub open spec fn details_after_history(history: Seq<(OptType, u32, u32)>) -> bool
    decreases history.len(),
{
    if history.len() == 0 {
        false
    } else {
        let (typ, value, err) = history.last();
        details_after_option(details_after_history(history.drop_last()), typ, value, err)
    }
}

/// The value of the most recent successful setting of the detail option in
/// `history`, if there was one.
pub open spec fn last_detail_setting(history: Seq<(OptType, u32, u32)>) -> Option<u32>
    decreases history.len(),
{
    if history.len() == 0 {
        None
    } else if history.last().2 == CS_ERR_OK && history.last().0 == OptType::Detail {
        Some(history.last().1)
    } else {
        last_detail_setting(history.drop_last())
    }
}

/// Capstone handle.
///
/// Holds the engine's handle number, the architecture it was opened for, and
/// whether the detail option is on; the engine offers no way to read an
/// option back, so the handle keeps track of it.
pub struct Capstone {
    handle: usize,
    details_on: bool,
    arch: Arch,
}

impl Capstone {
    /// The engine's handle number.
    pub closed spec fn spec_handle(&self) -> usize {
        self.handle
    }

    /// Whether the detail option is on.
    pub closed spec fn spec_details_on(&self) -> bool {
        self.details_on
    }

    /// The architecture the handle was opened for.
    pub closed spec fn spec_arch(&self) -> Arch {
        self.arch
    }

    /// Create a Capstone handle for `arch` from the engine's answer to opening
    /// it: the status `open_err` and the handle number `handle` it filled in.
    /// Details start off.
    pub fn new(arch: Arch, open_err: u32, handle: usize) -> (r: Result<Capstone, CsErr>)
        ensures
            r is Ok <==> open_err == CS_ERR_OK,
            r matches Err(e) ==> e@ == open_err,
            r matches Ok(c) ==> c.spec_handle() == handle && c.spec_arch() == arch
                && !c.spec_details_on(),
    {
        to_res(open_err)?;
        Ok(Capstone { handle, details_on: false, arch })
    }

    /// The engine's handle number.
    pub fn handle(&self) -> (r: usize)
        ensures
            r == self.spec_handle(),
    {
        self.handle
    }

    /// Whether the detail option is on.
    pub fn details_on(&self) -> (r: bool)
        ensures
            r == self.spec_details_on(),
    {
        self.details_on
    }

    /// The architecture the handle was opened for.
    pub fn arch(&self) -> (r: Arch)
        ensures
            r == self.spec_arch(),
    {
        self.arch
    }

    /// Record that the option `typ` was set to `value` and that the engine
    /// answered `err`: the result is the engine's status, and a successful
    /// setting of the detail option is remembered.
    pub fn option(&mut self, typ: OptType, value: u32, err: u32) -> (r: Result<(), CsErr>)
        ensures
            r is Ok <==> err == CS_ERR_OK,
            r matches Err(e) ==> e@ == err,
            final(self).spec_handle() == old(self).spec_handle(),
            final(self).spec_arch() == old(self).spec_arch(),
            final(self).spec_details_on() == details_after_option(
                old(self).spec_details_on(),
                typ,
                value,
                err,
            ),
    {
        to_res(err)?;
        if typ == OptType::Detail {
            self.details_on = value == CS_OPT_ON;
        }
        Ok(())
    }

    /// Turn the engine's answer to a disassembly into a result: the records
    /// `insns` of the instructions it decoded, and the error code `errno` it
    /// reported. Decoding nothing is a failure that carries `errno`; otherwise
    /// the buffer holds the records, read for the handle's architecture and
    /// with details exactly when the detail option is on.
    pub fn disasm(&self, insns: Vec<RawInsn>, errno: u32) -> (r: Result<InstrBuf, CsErr>)
        ensures
            r is Err <==> insns@.len() == 0,
            r matches Err(e) ==> e@ == errno,
            r matches Ok(b) ==> b.raw() == insns@ && b.decode_detail() == self.spec_details_on()
                && b.arch() == self.spec_arch(),
    {
        if insns.len() == 0 {
            return Err(CsErr::new(errno));
        }
        let detail = self.details_on;
        Ok(InstrBuf::new(insns, detail, self.arch))
    }
}

} // verus!
