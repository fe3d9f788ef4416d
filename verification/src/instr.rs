//! Disassembled instructions: the engine's raw records and the library's
//! Rust-friendly [`Instr`] built from them.

use vstd::prelude::*;

use capstone_sys::{
    cs_arm, cs_arm64, cs_evm, cs_m680x, cs_m68k, cs_mips, cs_ppc, cs_sparc, cs_sysz,
    cs_tms320c64x, cs_x86, cs_xcore,
};

use crate::engine::{decodable, Arch};
use crate::text::{c_chars_to_string, c_text};

verus! {

/// Architecture-specific instruction id: the engine's numeric id, tagged with
/// the architecture whose `*_insn` table it indexes.
#[derive(Clone, Copy, Debug, PartialEq, Eq, Structural)]
pub enum InstrIdArch {
    X86(u32),
    ARM64(u32),
    ARM(u32),
    MIPS(u32),
    PPC(u32),
    SPARC(u32),
    SYSZ(u32),
    XCORE(u32),
    M68K(u32),
    TMS320C64X(u32),
    M680X(u32),
    EVM(u32),
}

impl InstrIdArch {
    /// The architecture the id belongs to.
    pub open spec fn arch(self) -> Arch {
        match self {
            InstrIdArch::X86(_) => Arch::X86,
            InstrIdArch::ARM64(_) => Arch::ARM64,
            InstrIdArch::ARM(_) => Arch::ARM,
            InstrIdArch::MIPS(_) => Arch::MIPS,
            InstrIdArch::PPC(_) => Arch::PPC,
            InstrIdArch::SPARC(_) => Arch::SPARC,
            InstrIdArch::SYSZ(_) => Arch::SYSZ,
            InstrIdArch::XCORE(_) => Arch::XCORE,
            InstrIdArch::M68K(_) => Arch::M68K,
            InstrIdArch::TMS320C64X(_) => Arch::TMS320C64X,
            InstrIdArch::M680X(_) => Arch::M680X,
            InstrIdArch::EVM(_) => Arch::EVM,
        }
    }

    /// The numeric id.
    pub open spec fn id(self) -> u32 {
        match self {
            InstrIdArch::X86(i) => i,
            InstrIdArch::ARM64(i) => i,
            InstrIdArch::ARM(i) => i,
            InstrIdArch::MIPS(i) => i,
            InstrIdArch::PPC(i) => i,
            InstrIdArch::SPARC(i) => i,
            InstrIdArch::SYSZ(i) => i,
            InstrIdArch::XCORE(i) => i,
            InstrIdArch::M68K(i) => i,
            InstrIdArch::TMS320C64X(i) => i,
            InstrIdArch::M680X(i) => i,
            InstrIdArch::EVM(i) => i,
        }
    }

    /// Tag the numeric id `id` with the architecture `arch`.
    pub fn from_arch(arch: Arch, id: u32) -> (r: InstrIdArch)
        requires
            decodable(arch),
        ensures
            r.arch() == arch,
            r.id() == id,
            arch == Arch::X86 ==> r == InstrIdArch::X86(id),
            arch == Arch::ARM64 ==> r == InstrIdArch::ARM64(id),
            arch == Arch::ARM ==> r == InstrIdArch::ARM(id),
            arch == Arch::MIPS ==> r == InstrIdArch::MIPS(id),
            arch == Arch::PPC ==> r == InstrIdArch::PPC(id),
            arch == Arch::SPARC ==> r == InstrIdArch::SPARC(id),
            arch == Arch::SYSZ ==> r == InstrIdArch::SYSZ(id),
            arch == Arch::XCORE ==> r == InstrIdArch::XCORE(id),
            arch == Arch::M68K ==> r == InstrIdArch::M68K(id),
            arch == Arch::TMS320C64X ==> r == InstrIdArch::TMS320C64X(id),
            arch == Arch::M680X ==> r == InstrIdArch::M680X(id),
            arch == Arch::EVM ==> r == InstrIdArch::EVM(id),
    {
        match arch {
            Arch::ARM => InstrIdArch::ARM(id),
            Arch::ARM64 => InstrIdArch::ARM64(id),
            Arch::MIPS => InstrIdArch::MIPS(id),
            Arch::X86 => InstrIdArch::X86(id),
            Arch::PPC => InstrIdArch::PPC(id),
            Arch::SPARC => InstrIdArch::SPARC(id),
            Arch::SYSZ => InstrIdArch::SYSZ(id),
            Arch::XCORE => InstrIdArch::XCORE(id),
            Arch::M68K => InstrIdArch::M68K(id),
            Arch::TMS320C64X => InstrIdArch::TMS320C64X(id),
            Arch::M680X => InstrIdArch::M680X(id),
            _ => InstrIdArch::EVM(id),
        }
    }
}

/// Architecture-specific part of an instruction's details: the engine's own
/// record for that architecture.
pub enum DetailsArch {
    X86(cs_x86),
    ARM64(cs_arm64),
    ARM(Box<cs_arm>),
    MIPS(cs_mips),
    PPC(cs_ppc),
    SPARC(cs_sparc),
    SYSZ(cs_sysz),
    XCORE(cs_xcore),
    M68K(cs_m68k),
    TMS320C64X(cs_tms320c64x),
    M680X(cs_m680x),
    EVM(cs_evm),
}

impl DetailsArch {
    /// The architecture the record belongs to.
    pub open spec fn arch(self) -> Arch {
        match self {
            DetailsArch::X86(_) => Arch::X86,
            DetailsArch::ARM64(_) => Arch::ARM64,
            DetailsArch::ARM(_) => Arch::ARM,
            DetailsArch::MIPS(_) => Arch::MIPS,
            DetailsArch::PPC(_) => Arch::PPC,
            DetailsArch::SPARC(_) => Arch::SPARC,
            DetailsArch::SYSZ(_) => Arch::SYSZ,
            DetailsArch::XCORE(_) => Arch::XCORE,
            DetailsArch::M68K(_) => Arch::M68K,
            DetailsArch::TMS320C64X(_) => Arch::TMS320C64X,
            DetailsArch::M680X(_) => Arch::M680X,
            DetailsArch::EVM(_) => Arch::EVM,
        }
    }
}

impl Clone for DetailsArch {
    /// A copy of the record.
    fn clone(&self) -> (r: Self)
        ensures
            r == *self,
    {
        match self {
            DetailsArch::X86(x) => DetailsArch::X86(*x),
            DetailsArch::ARM64(x) => DetailsArch::ARM64(*x),
            DetailsArch::ARM(x) => DetailsArch::ARM(Box::new(**x)),
            DetailsArch::MIPS(x) => DetailsArch::MIPS(*x),
            DetailsArch::PPC(x) => DetailsArch::PPC(*x),
            DetailsArch::SPARC(x) => DetailsArch::SPARC(*x),
            DetailsArch::SYSZ(x) => DetailsArch::SYSZ(*x),
            DetailsArch::XCORE(x) => DetailsArch::XCORE(*x),
            DetailsArch::M68K(x) => DetailsArch::M68K(*x),
            DetailsArch::TMS320C64X(x) => DetailsArch::TMS320C64X(*x),
            DetailsArch::M680X(x) => DetailsArch::M680X(*x),
            DetailsArch::EVM(x) => DetailsArch::EVM(*x),
        }
    }
}

/// Details of an instruction, filled in when the detail option is on.
pub struct Details {
    /// List of implicit registers read by this insn.
    pub regs_read: Vec<u32>,
    /// List of implicit registers modified by this insn.
    pub regs_write: Vec<u32>,
    /// List of groups this instruction belongs to.
    pub groups: Vec<u32>,
    /// Architecture-specific details.
    pub arch: DetailsArch,
}

/// Disassembled instruction.
pub struct Instr {
    /// Instruction id, tagged with its architecture.
    pub id: InstrIdArch,
    /// Address (EIP) of this instruction.
    pub address: u64,
    /// Size of this instruction.
    pub size: u16,
    /// Machine bytes of this instruction, as the engine's byte array holds them.
    pub bytes: Vec<u8>,
    /// Text of the instruction mnemonic.
    pub mnemonic: String,
    /// Text of the instruction operands.
    pub op_str: String,
    /// Details of this instruction, when the detail option was on.
    pub detail: Option<Details>,
}

/// The detail record the engine filled in for an instruction, copied out of
/// the engine's memory field by field.
pub struct RawDetail {
    /// The engine's array of implicitly read registers.
    pub regs_read: Vec<u16>,
    /// How many entries of `regs_read` are in use.
    pub regs_read_count: u8,
    /// The engine's array of implicitly written registers.
    pub regs_write: Vec<u16>,
    /// How many entries of `regs_write` are in use.
    pub regs_write_count: u8,
    /// The engine's array of groups.
    pub groups: Vec<u8>,
    /// How many entries of `groups` are in use.
    pub groups_count: u8,
    /// The architecture-specific record.
    pub arch: DetailsArch,
}

/// An instruction record as the engine produced it, copied out of the engine's
/// memory field by field.
pub struct RawInsn {
    /// Numeric instruction id.
    pub id: u32,
    /// Address of the instruction.
    pub address: u64,
    /// Size of the instruction in bytes.
    pub size: u16,
    /// The engine's whole byte array.
    pub bytes: Vec<u8>,
    /// The engine's NUL-terminated mnemonic array.
    pub mnemonic: Vec<u8>,
    /// The engine's NUL-terminated operand array.
    pub op_str: Vec<u8>,
    /// The engine's detail record, where there was one.
    pub detail: Option<RawDetail>,
}

/// Registers of a detail array, widened to `u32`.
pub open spec fn widen_regs(s: Seq<u16>) -> Seq<u32> {
    s.map_values(|r: u16| r as u32)
}

/// Groups of a detail array, widened to `u32`.
pub open spec fn widen_groups(s: Seq<u8>) -> Seq<u32> {
    s.map_values(|g: u8| g as u32)
}

impl RawDetail {
    /// The counts stay within their arrays.
    pub open spec fn counts_in_bounds(self) -> bool {
        &&& self.regs_read_count <= self.regs_read@.len()
        &&& self.regs_write_count <= self.regs_write@.len()
        &&& self.groups_count <= self.groups@.len()
    }
}

impl Details {
    /// `self` holds the in-use part of the raw detail record `raw`.
    pub open spec fn copied_from(self, raw: RawDetail) -> bool {
        &&& self.regs_read@ == widen_regs(raw.regs_read@.take(raw.regs_read_count as int))
        &&& self.regs_write@ == widen_regs(raw.regs_write@.take(raw.regs_write_count as int))
        &&& self.groups@ == widen_groups(raw.groups@.take(raw.groups_count as int))
        &&& self.arch == raw.arch
    }
}

impl RawInsn {
    /// The record can be decoded for `arch`: the architecture is one the
    /// library interprets and, where details are to be read, the engine
    /// filled in a detail record of that architecture.
    pub open spec fn decodable_for(self, decode_detail: bool, arch: Arch) -> bool {
        &&& decodable(arch)
        &&& decode_detail ==> (self.detail matches Some(d) && d.counts_in_bounds()
            && d.arch.arch() == arch)
    }
}

impl Instr {
    /// `self` is the instruction decoded from `raw` for `arch`, with details
    /// exactly when `decode_detail` holds.
    pub open spec fn decoded_from(self, raw: RawInsn, decode_detail: bool, arch: Arch) -> bool {
        &&& self.id.arch() == arch
        &&& self.id.id() == raw.id
        &&& self.address == raw.address
        &&& self.size == raw.size
        &&& self.bytes@ == raw.bytes@
        &&& self.mnemonic@ == c_text(raw.mnemonic@)
        &&& self.op_str@ == c_text(raw.op_str@)
        &&& if decode_detail {
            self.detail matches Some(d) && raw.detail matches Some(rd) && d.copied_from(rd)
        } else {
            self.detail is None
        }
    }

    /// Create an `Instr` from the engine's record of an instruction.
    pub fn new(instr: &RawInsn, decode_detail: bool, arch: Arch) -> (r: Instr)
        requires
            instr.decodable_for(decode_detail, arch),
        ensures
            r.decoded_from(*instr, decode_detail, arch),
    {
        let id = InstrIdArch::from_arch(arch, instr.id);
        let bytes = copy_bytes(&instr.bytes);
        let mnemonic = c_chars_to_string(instr.mnemonic.as_slice());
        let op_str = c_chars_to_string(instr.op_str.as_slice());
        let detail = if decode_detail {
            match &instr.detail {
                Some(d) => Some(copy_details(d)),
                None => None,
            }
        } else {
            None
        };
        Instr { id, address: instr.address, size: instr.size, bytes, mnemonic, op_str, detail }
    }
}

/// A copy of a byte array.
fn copy_bytes(src: &Vec<u8>) -> (r: Vec<u8>)
    ensures
        r@ == src@,
{
    let mut out: Vec<u8> = Vec::new();
    let mut i: usize = 0;
    while i < src.len()
        invariant
            i <= src.len(),
            out@ == src@.take(i as int),
        decreases src.len() - i,
    {
        out.push(src[i]);
        i = i + 1;
        assert(out@ =~= src@.take(i as int));
    }
    assert(src@.take(src.len() as int) =~= src@);
    out
}

/// The first `count` registers of a detail array, widened.
fn copy_regs(src: &Vec<u16>, count: u8) -> (r: Vec<u32>)
    requires
        count <= src@.len(),
    ensures
        r@ == widen_regs(src@.take(count as int)),
{
    let mut out: Vec<u32> = Vec::new();
    let mut i: u8 = 0;
    while i < count
        invariant
            i <= count <= src@.len(),
            out@ == widen_regs(src@.take(i as int)),
        decreases count - i,
    {
        out.push(src[i as usize] as u32);
        i = i + 1;
        assert(out@ =~= widen_regs(src@.take(i as int)));
    }
    out
}

/// The first `count` groups of a detail array, widened.
fn copy_groups(src: &Vec<u8>, count: u8) -> (r: Vec<u32>)
    requires
        count <= src@.len(),
    ensures
        r@ == widen_groups(src@.take(count as int)),
{
    let mut out: Vec<u32> = Vec::new();
    let mut i: u8 = 0;
    while i < count
        invariant
            i <= count <= src@.len(),
            out@ == widen_groups(src@.take(i as int)),
        decreases count - i,
    {
        out.push(src[i as usize] as u32);
        i = i + 1;
        assert(out@ =~= widen_groups(src@.take(i as int)));
    }
    out
}

/// The in-use part of a raw detail record.
fn copy_details(d: &RawDetail) -> (r: Details)
    requires
        d.counts_in_bounds(),
    ensures
        r.copied_from(*d),
{
    Details {
        regs_read: copy_regs(&d.regs_read, d.regs_read_count),
        regs_write: copy_regs(&d.regs_write, d.regs_write_count),
        groups: copy_groups(&d.groups, d.groups_count),
        arch: d.arch.clone(),
    }
}

} // verus!
