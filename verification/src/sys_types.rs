//! The engine's per-architecture detail records, carried through unread.
//!
//! These are the C structures of the engine's bindings; the library never looks
//! inside them, it only moves and copies them.

use vstd::prelude::*;

verus! {

#[verifier::external_type_specification]
#[verifier::external_body]
pub struct ExCsX86(capstone_sys::cs_x86);

#[verifier::external_type_specification]
#[verifier::external_body]
pub struct ExCsArm64(capstone_sys::cs_arm64);

#[verifier::external_type_specification]
#[verifier::external_body]
pub struct ExCsArm(capstone_sys::cs_arm);

#[verifier::external_type_specification]
#[verifier::external_body]
pub struct ExCsMips(capstone_sys::cs_mips);

#[verifier::external_type_specification]
#[verifier::external_body]
pub struct ExCsPpc(capstone_sys::cs_ppc);

#[verifier::external_type_specification]
#[verifier::external_body]
pub struct ExCsSparc(capstone_sys::cs_sparc);

#[verifier::external_type_specification]
#[verifier::external_body]
pub struct ExCsSysz(capstone_sys::cs_sysz);

#[verifier::external_type_specification]
#[verifier::external_body]
pub struct ExCsXcore(capstone_sys::cs_xcore);

#[verifier::external_type_specification]
#[verifier::external_body]
pub struct ExCsM68k(capstone_sys::cs_m68k);

#[verifier::external_type_specification]
#[verifier::external_body]
pub struct ExCsTms320c64x(capstone_sys::cs_tms320c64x);

#[verifier::external_type_specification]
#[verifier::external_body]
pub struct ExCsM680x(capstone_sys::cs_m680x);

#[verifier::external_type_specification]
#[verifier::external_body]
pub struct ExCsEvm(capstone_sys::cs_evm);

} // verus!
