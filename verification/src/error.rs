//! Failures that decoding can report.

use vstd::prelude::*;

verus! {

/// Why a byte sequence could not be decoded as a MOV instruction.
#[derive(Debug, PartialEq, Eq, Clone, Copy)]
pub enum DecodeError {
    /// The first byte of the instruction belongs to none of the MOV forms.
    UnrecognizedOpcode(u8),
    /// The addressing mode, given by its two-bit value, selects an operand
    /// that this decoder cannot express.
    UnsupportedAddressingMode(u8),
    /// The instruction needs the first number of bytes, but only the second
    /// number of bytes is left.
    TruncatedInstruction(usize, usize),
    /// The named bit field holds a value outside the table that it indexes.
    InvalidField(&'static str, u8),
}

/// A decoding failure together with the offset, in the input, of the first
/// byte of the instruction that failed.
#[derive(Debug, PartialEq, Eq, Clone, Copy)]
pub struct DecodeFailure {
    pub offset: usize,
    pub error: DecodeError,
}

} // verus!
