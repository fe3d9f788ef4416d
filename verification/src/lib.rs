//! Rust-friendly access to the Capstone disassembly engine, with the library's
//! logic verified: how engine status codes become results, how the detail
//! option is tracked, and how the engine's raw instruction records become
//! [`Instr`] values.

pub mod buffer;
pub mod engine;
pub mod error;
pub mod handle;
pub mod instr;
pub mod laws;
pub mod sys_types;
pub mod text;

pub use buffer::{InstrBuf, InstrIter};
pub use engine::{is_decodable, Arch, OptType, CS_ERR_OK, CS_OPT_OFF, CS_OPT_ON};
pub use error::{to_res, CsErr};
pub use handle::Capstone;
pub use instr::{Details, DetailsArch, Instr, InstrIdArch, RawDetail, RawInsn};
pub use text::{c_chars_to_string, error_message_from_engine, name_from_engine, ERROR_MESSAGE_FALLBACK};
