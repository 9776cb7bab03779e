//! Decoder for the MOV instruction encodings of the 8086 family.
//!
//! The first byte of an instruction is classified into one of seven forms
//! ([`MovInstructionType::from_byte`]), the bytes of the instruction are
//! decoded into operands ([`decode_operands`]), and a whole byte sequence is
//! turned into a listing with one line for each instruction
//! ([`disassemble_binary`]).

pub mod bits;
pub mod decode;
pub mod error;
pub mod fields;
pub mod listing;
pub mod opcode;
pub mod operand;
pub mod text;

pub use bits::extract_bits;
pub use decode::{decode_operands, DecodedInstruction};
pub use error::{DecodeError, DecodeFailure};
pub use fields::{AddressBase, ModEncoding, RegisterOp};
pub use listing::disassemble_binary;
pub use opcode::{MovInstructionType, OpcodeRule};
pub use operand::{Operand, OperandWidth};
