//! The engine's enumerations and codes, held as plain values.
//!
//! The disassembly engine speaks in C enumerations (`cs_arch`, `cs_opt_type`)
//! and in bare integer codes (`cs_err`, `cs_opt_value`). The library keeps its
//! own copies of these so that its logic can be stated and checked over them.

use vstd::prelude::*;

verus! {

/// Architecture type handed to the engine when a handle is opened.
#[allow(non_camel_case_types)]
#[derive(Clone, Copy, Debug, PartialEq, Eq, Structural)]
pub enum Arch {
    ARM,
    ARM64,
    MIPS,
    X86,
    PPC,
    SPARC,
    SYSZ,
    XCORE,
    M68K,
    TMS320C64X,
    M680X,
    EVM,
    MOS65XX,
    WASM,
    BPF,
    RISCV,
    SH,
    TRICORE,
    MAX,
    ALL,
}

/// Kind of runtime option that can be set on a handle.
#[derive(Clone, Copy, Debug, PartialEq, Eq, Structural)]
pub enum OptType {
    Invalid,
    Syntax,
    Detail,
    Mode,
    Mem,
    SkipData,
    SkipDataSetup,
    Mnemonic,
    Unsigned,
    NoBranchOffset,
}

/// The engine's "no error" code.
pub const CS_ERR_OK: u32 = 0;

/// Option value that turns an option off.
pub const CS_OPT_OFF: u32 = 0;

/// Option value that turns an option on.
pub const CS_OPT_ON: u32 = 3;

/// Architectures whose instructions this library can decode: those whose
/// instruction ids and detail records it knows how to interpret.
pub open spec fn decodable(arch: Arch) -> bool {
    match arch {
        Arch::ARM | Arch::ARM64 | Arch::MIPS | Arch::X86 | Arch::PPC | Arch::SPARC | Arch::SYSZ
        | Arch::XCORE | Arch::M68K | Arch::TMS320C64X | Arch::M680X | Arch::EVM => true,
        _ => false,
    }
}

/// Executable test of [`decodable`].
pub fn is_decodable(arch: Arch) -> (r: bool)
    ensures
        r == decodable(arch),
{
    match arch {
        Arch::ARM | Arch::ARM64 | Arch::MIPS | Arch::X86 | Arch::PPC | Arch::SPARC | Arch::SYSZ
        | Arch::XCORE | Arch::M68K | Arch::TMS320C64X | Arch::M680X | Arch::EVM => true,
        _ => false,
    }
}

} // verus!
