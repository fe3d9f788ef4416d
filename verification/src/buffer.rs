//! Buffers of disassembled instructions and iteration over them.

use vstd::prelude::*;

use crate::engine::Arch;
use crate::instr::{Instr, RawInsn};

verus! {

/// Buffer of disassembled instructions.
///
/// Holds the engine's records of the instructions of one disassembly, whether
/// details were on when they were made, and the architecture to read them for.
pub struct InstrBuf {
    insns: Vec<RawInsn>,
    decode_detail: bool,
    arch: Arch,
}

impl InstrBuf {
    /// The engine's records, in disassembly order.
    pub closed spec fn raw(&self) -> Seq<RawInsn> {
        self.insns@
    }

    /// Whether the records carry details to be read.
    pub closed spec fn decode_detail(&self) -> bool {
        self.decode_detail
    }

    /// The architecture the records are read for.
    pub closed spec fn arch(&self) -> Arch {
        self.arch
    }

    /// The record at `index`, if any, can be decoded.
    pub open spec fn entry_decodable(&self, index: int) -> bool {
        0 <= index < self.raw().len() ==> self.raw()[index].decodable_for(
            self.decode_detail(),
            self.arch(),
        )
    }

    /// Create a buffer from the engine's records `insn`. `decode_detail` states
    /// whether the records carry details; `arch` is the architecture to read
    /// them for.
    pub fn new(insn: Vec<RawInsn>, decode_detail: bool, arch: Arch) -> (r: InstrBuf)
        ensures
            r.raw() == insn@,
            r.decode_detail() == decode_detail,
            r.arch() == arch,
    {
        InstrBuf { insns: insn, decode_detail, arch }
    }

    /// Get the number of instructions in this buffer.
    pub fn count(&self) -> (r: usize)
        ensures
            r == self.raw().len(),
    {
        self.insns.len()
    }

    /// Get the instruction at the requested index: `None` past the end.
    pub fn get(&self, index: usize) -> (r: Option<Instr>)
        requires
            self.entry_decodable(index as int),
        ensures
            r is Some <==> index < self.raw().len(),
            r matches Some(i) ==> i.decoded_from(
                self.raw()[index as int],
                self.decode_detail(),
                self.arch(),
            ),
    {
        if index >= self.insns.len() {
            return None;
        }
        Some(Instr::new(&self.insns[index], self.decode_detail, self.arch))
    }

    /// Create an iterator from the beginning of this buffer.
    pub fn iter(&self) -> (r: InstrIter<'_>)
        ensures
            r.buf() == *self,
            r.current() == 0,
    {
        InstrIter::new(self)
    }
}

/// Disassembled instructions iterator: walks a buffer from its first
/// instruction to its last, then yields `None`.
pub struct InstrIter<'a> {
    buf: &'a InstrBuf,
    current: usize,
}

impl<'a> InstrIter<'a> {
    /// The buffer walked.
    pub closed spec fn buf(&self) -> InstrBuf {
        *self.buf
    }

    /// Index of the instruction the next step yields.
    pub closed spec fn current(&self) -> usize {
        self.current
    }

    /// `next` is `self` moved one index on, over the same buffer.
    pub open spec fn stepped_to(self, next: InstrIter<'a>) -> bool {
        &&& next.buf() == self.buf()
        &&& next.current() == self.current() + 1
    }

    /// `r` is what a step from `self` yields: the instruction decoded from the
    /// record at the current index, or `None` past the end of the buffer.
    pub open spec fn yields(self, r: Option<Instr>) -> bool {
        &&& r is Some <==> self.current() < self.buf().raw().len()
        &&& r matches Some(i) ==> i.decoded_from(
            self.buf().raw()[self.current() as int],
            self.buf().decode_detail(),
            self.buf().arch(),
        )
    }

    /// Create an `InstrIter` from the beginning of `buf`.
    pub fn new(buf: &'a InstrBuf) -> (r: InstrIter<'a>)
        ensures
            r.buf() == *buf,
            r.current() == 0,
    {
        InstrIter { buf, current: 0 }
    }

    /// Yield the instruction at the current index (`None` past the end of the
    /// buffer) and move one index on.
    pub fn next(&mut self) -> (r: Option<Instr>)
        requires
            old(self).current() < usize::MAX,
            old(self).buf().entry_decodable(old(self).current() as int),
        ensures
            old(self).stepped_to(*final(self)),
            old(self).yields(r),
    {
        let instr = self.buf.get(self.current);
        self.current = self.current + 1;
        instr
    }
}

} // verus!
