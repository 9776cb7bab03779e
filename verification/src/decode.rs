//! Decoding of one instruction: its operands and its length.

use vstd::prelude::*;
use vstd::arithmetic::power2::lemma2_to64;
use crate::bits::{bit_field, extract_bits};
use crate::error::DecodeError;
use crate::fields::{
    address_base, mode_of, register_name, segment_register_name, AddressBase, ModEncoding, RegisterOp,
};
use crate::opcode::MovInstructionType;
use crate::operand::{Operand, OperandWidth};

verus! {

/// One decoded instruction.
#[derive(Debug, PartialEq, Eq, Clone, Copy)]
pub struct DecodedInstruction {
    /// Name of the operation.
    pub mnemonic: &'static str,
    /// Where the data goes.
    pub destination: Operand,
    /// Where the data comes from.
    pub source: Operand,
    /// Number of bytes that the instruction occupies.
    pub byte_length: usize,
}

/// The direction bit of a first byte, bit 6: 0 when the register named by
/// the register field is the source, 1 when it is the destination.
pub open spec fn direction_of(first: u8) -> u8 {
    bit_field(first, 6, 7) as u8
}

/// The width bit of a first byte, bit 7: 0 for bytes, 1 for words.
pub open spec fn width_of(first: u8) -> u8 {
    bit_field(first, 7, 8) as u8
}

/// The addressing mode field of a second byte, bits 0 and 1.
pub open spec fn mode_field(second: u8) -> u8 {
    bit_field(second, 0, 2) as u8
}

/// The register field of a second byte, bits 2 to 4.
pub open spec fn reg_field(second: u8) -> u8 {
    bit_field(second, 2, 5) as u8
}

/// The register-or-memory field of a second byte, bits 5 to 7.
pub open spec fn rm_field(second: u8) -> u8 {
    bit_field(second, 5, 8) as u8
}

/// The width bit of the first byte of an immediate-to-register instruction,
/// bit 4.
pub open spec fn short_width_of(first: u8) -> u8 {
    bit_field(first, 4, 5) as u8
}

/// The register field of the first byte of an immediate-to-register
/// instruction, bits 5 to 7.
pub open spec fn short_register_of(first: u8) -> u8 {
    bit_field(first, 5, 8) as u8
}

/// The fields of a byte, by division and remainder.
pub proof fn lemma_field_values(byte: u8)
    ensures
        direction_of(byte) == (byte / 2) % 2,
        width_of(byte) == byte % 2,
        mode_field(byte) == byte / 64,
        reg_field(byte) == (byte / 8) % 8,
        rm_field(byte) == byte % 8,
        short_width_of(byte) == (byte / 8) % 2,
        short_register_of(byte) == byte % 8,
{
    lemma2_to64();
    assert(bit_field(byte, 7, 8) == (byte as int / 1) % 2);
    assert(bit_field(byte, 0, 2) == (byte as int / 64) % 4);
}

/// Whether instructions of the form have a second byte that holds the
/// addressing mode, register and register-or-memory fields.
pub open spec fn has_mode_byte(form: MovInstructionType) -> bool {
    form == MovInstructionType::RegisterOrMemoryToOrFromRegister || form
        == MovInstructionType::ImmediateToRegisterOrMemory || names_segment_register(form)
}

/// Whether the register field of the form selects a segment register.
pub open spec fn names_segment_register(form: MovInstructionType) -> bool {
    form == MovInstructionType::RegisterOrMemoryToSegmentRegister || form
        == MovInstructionType::SegmentRegisterToRegisterOrMemory
}

/// The width bit that governs the operands of an instruction: segment
/// registers are words, and the other forms carry the bit in their first
/// byte.
pub open spec fn operand_width_bit(form: MovInstructionType, first: u8) -> u8 {
    if names_segment_register(form) {
        1
    } else if form == MovInstructionType::ImmediateToRegister {
        short_width_of(first)
    } else {
        width_of(first)
    }
}

/// Number of bytes of the immediate value of an instruction: one for bytes,
/// two for words, none in the forms without immediate value.
pub open spec fn immediate_len(form: MovInstructionType, first: u8) -> nat {
    if form == MovInstructionType::ImmediateToRegisterOrMemory || form
        == MovInstructionType::ImmediateToRegister {
        1 + operand_width_bit(form, first) as nat
    } else {
        0
    }
}

/// Number of displacement bytes that follow a second byte.
pub open spec fn displacement_len(second: u8) -> nat {
    match mode_of(mode_field(second)) {
        Some(mode) => mode.displacement_len(),
        None => 0,
    }
}

/// Number of bytes that the instruction at the start of `bytes` needs, as
/// far as `bytes` shows it: one byte for the first byte, two where the form
/// has a second byte, and with those at hand the whole length, displacement
/// and immediate value included.
pub open spec fn needed_len(form: MovInstructionType, bytes: Seq<u8>) -> nat {
    if bytes.len() == 0 {
        1
    } else if has_mode_byte(form) {
        if bytes.len() < 2 {
            2
        } else {
            2 + displacement_len(bytes[1]) + immediate_len(form, bytes[0])
        }
    } else if form == MovInstructionType::ImmediateToRegister {
        1 + immediate_len(form, bytes[0])
    } else {
        3
    }
}

/// The word whose low byte stands at `at` and whose high byte follows it.
pub open spec fn word_at(bytes: Seq<u8>, at: int) -> u16 {
    (bytes[at] + 256 * bytes[at + 1]) as u16
}

/// A byte as a sixteen-bit number in two's complement with the same value.
pub open spec fn sign_extended(byte: u8) -> u16 {
    if byte < 128 {
        byte as u16
    } else {
        (0xFF00 + byte) as u16
    }
}

/// The displacement that follows the second byte.
pub open spec fn displacement_of(bytes: Seq<u8>) -> Option<u16> {
    match mode_of(mode_field(bytes[1])) {
        Some(ModEncoding::MemMode8B) => Some(sign_extended(bytes[2])),
        Some(ModEncoding::MemMode16B) => Some(word_at(bytes, 2)),
        _ => None,
    }
}

/// The general register that a width bit and a selector name.
pub open spec fn register_operand(w: u8, bits: u8) -> Operand {
    Operand::Register(register_name(w, bits)->0)
}

/// The operand that the register-or-memory field selects: in register mode
/// a register of the given width, else the memory at the address that the
/// field and the displacement form.
pub open spec fn rm_operand(w: u8, bytes: Seq<u8>) -> Operand {
    let mode = mode_of(mode_field(bytes[1]))->0;
    if mode == ModEncoding::RegisterMode {
        register_operand(w, rm_field(bytes[1]))
    } else {
        Operand::Memory(address_base(mode, rm_field(bytes[1]))->0, displacement_of(bytes))
    }
}

/// The immediate value at `at`: one byte when `w` is 0, else a word.
pub open spec fn immediate_operand(w: u8, bytes: Seq<u8>, at: int) -> Operand {
    if w == 0 {
        Operand::Immediate(bytes[at] as u16, OperandWidth::Byte)
    } else {
        Operand::Immediate(word_at(bytes, at), OperandWidth::Word)
    }
}

/// The destination of the instruction at the start of `bytes`.
pub open spec fn destination_of(form: MovInstructionType, bytes: Seq<u8>) -> Operand {
    let w = operand_width_bit(form, bytes[0]);
    match form {
        MovInstructionType::RegisterOrMemoryToOrFromRegister => if direction_of(bytes[0]) == 0 {
            rm_operand(w, bytes)
        } else {
            register_operand(w, reg_field(bytes[1]))
        },
        MovInstructionType::ImmediateToRegisterOrMemory => rm_operand(w, bytes),
        MovInstructionType::ImmediateToRegister => register_operand(w, short_register_of(bytes[0])),
        MovInstructionType::MemoryToAccumulator => register_operand(w, 0),
        MovInstructionType::AccumulatorToMemory => Operand::Memory(AddressBase::Direct, Some(word_at(bytes, 1))),
        MovInstructionType::RegisterOrMemoryToSegmentRegister => Operand::Register(
            segment_register_name(reg_field(bytes[1]))->0,
        ),
        MovInstructionType::SegmentRegisterToRegisterOrMemory => rm_operand(w, bytes),
    }
}

/// The source of the instruction at the start of `bytes`.
pub open spec fn source_of(form: MovInstructionType, bytes: Seq<u8>) -> Operand {
    let w = operand_width_bit(form, bytes[0]);
    match form {
        MovInstructionType::RegisterOrMemoryToOrFromRegister => if direction_of(bytes[0]) == 0 {
            register_operand(w, reg_field(bytes[1]))
        } else {
            rm_operand(w, bytes)
        },
        MovInstructionType::ImmediateToRegisterOrMemory => immediate_operand(
            w,
            bytes,
            2 + displacement_len(bytes[1]) as int,
        ),
        MovInstructionType::ImmediateToRegister => immediate_operand(w, bytes, 1),
        MovInstructionType::MemoryToAccumulator => Operand::Memory(AddressBase::Direct, Some(word_at(bytes, 1))),
        MovInstructionType::AccumulatorToMemory => register_operand(w, 0),
        MovInstructionType::RegisterOrMemoryToSegmentRegister => rm_operand(w, bytes),
        MovInstructionType::SegmentRegisterToRegisterOrMemory => Operand::Register(
            segment_register_name(reg_field(bytes[1]))->0,
        ),
    }
}

/// What decoding the instruction of the given form at the start of `bytes`
/// gives. What fails first is reported, in this order: the first byte, and
/// the second where the form has one, must be there; the mode without
/// displacement with selector `110` names no address registers and is not
/// supported; a segment register selector must be a two-bit value; the
/// displacement and the immediate value must be there.
pub open spec fn decode(form: MovInstructionType, bytes: Seq<u8>) -> Result<DecodedInstruction, DecodeError> {
    let needed = needed_len(form, bytes);
    if bytes.len() == 0 || (has_mode_byte(form) && bytes.len() < 2) {
        Err(DecodeError::TruncatedInstruction(needed as usize, bytes.len() as usize))
    } else if has_mode_byte(form) && mode_field(bytes[1]) == 0 && rm_field(bytes[1]) == 6 {
        Err(DecodeError::UnsupportedAddressingMode(0))
    } else if names_segment_register(form) && reg_field(bytes[1]) > 3 {
        Err(DecodeError::InvalidField("reg", reg_field(bytes[1])))
    } else if bytes.len() < needed {
        Err(DecodeError::TruncatedInstruction(needed as usize, bytes.len() as usize))
    } else {
        Ok(
            DecodedInstruction {
                mnemonic: "mov",
                destination: destination_of(form, bytes),
                source: source_of(form, bytes),
                byte_length: needed as usize,
            },
        )
    }
}

/// A decoded instruction occupies as many bytes as `needed_len` counts:
/// between two and six, and no more than there are.
pub proof fn lemma_decoded_length(form: MovInstructionType, bytes: Seq<u8>)
    requires
        decode(form, bytes) is Ok,
    ensures
        decode(form, bytes)->Ok_0.byte_length == needed_len(form, bytes),
        2 <= needed_len(form, bytes) <= 6,
        needed_len(form, bytes) <= bytes.len(),
{
    lemma_field_values(bytes[0]);
    if has_mode_byte(form) {
        lemma_field_values(bytes[1]);
    }
}

/// Decoding reads the bytes of the instruction and no others: a sequence
/// that starts with the same bytes, whatever follows them, decodes to the
/// same instruction.
pub proof fn lemma_decode_reads_only_its_bytes(form: MovInstructionType, bytes: Seq<u8>, other: Seq<u8>)
    requires
        decode(form, bytes) is Ok,
        other.len() >= needed_len(form, bytes),
        other.take(needed_len(form, bytes) as int) == bytes.take(needed_len(form, bytes) as int),
    ensures
        decode(form, other) == decode(form, bytes),
{
    lemma_decoded_length(form, bytes);
    let n = needed_len(form, bytes) as int;
    assert forall|i: int| 0 <= i < n implies other[i] == bytes[i] by {
        assert(other[i] == other.take(n)[i]);
        assert(bytes[i] == bytes.take(n)[i]);
    }
    lemma_field_values(bytes[0]);
    if has_mode_byte(form) {
        lemma_field_values(bytes[1]);
    }
}

/// A single byte is never a whole instruction: decoding it reports that at
/// least two bytes are needed and one is there.
pub proof fn lemma_single_byte_is_truncated(form: MovInstructionType, byte: u8)
    ensures
        decode(form, seq![byte]) == Err::<DecodedInstruction, DecodeError>(
            DecodeError::TruncatedInstruction(needed_len(form, seq![byte]) as usize, 1),
        ),
        2 <= needed_len(form, seq![byte]) <= 3,
{
    lemma_field_values(byte);
}

/// The two bytes that move between two registers: direction bit `d`, width
/// bit `w`, register selector `reg`, and `rm` as the selector of the other
/// register, in register mode.
pub open spec fn register_move(d: u8, w: u8, reg: u8, rm: u8) -> Seq<u8> {
    seq![(0x88 + 2 * d + w) as u8, (0xC0 + 8 * reg + rm) as u8]
}

/// Decoding the two bytes of a move between registers gives back the
/// registers that the bits stand for: with direction 0 the register field
/// names the source and the other field the destination, with direction 1
/// the reverse.
pub proof fn lemma_register_move_round_trip(d: u8, w: u8, reg: u8, rm: u8)
    requires
        d <= 1,
        w <= 1,
        reg <= 7,
        rm <= 7,
    ensures
        decode(MovInstructionType::RegisterOrMemoryToOrFromRegister, register_move(d, w, reg, rm)) == Ok::<
            DecodedInstruction,
            DecodeError,
        >(
            DecodedInstruction {
                mnemonic: "mov",
                destination: register_operand(
                    w,
                    if d == 0 {
                        rm
                    } else {
                        reg
                    },
                ),
                source: register_operand(
                    w,
                    if d == 0 {
                        reg
                    } else {
                        rm
                    },
                ),
                byte_length: 2,
            },
        ),
        crate::opcode::classify(register_move(d, w, reg, rm)[0]) == Some(
            MovInstructionType::RegisterOrMemoryToOrFromRegister,
        ),
{
    let bytes = register_move(d, w, reg, rm);
    lemma_field_values(bytes[0]);
    lemma_field_values(bytes[1]);
}

/// Reads the word whose low byte stands at `at`.
fn read_word(bytes: &[u8], at: usize) -> (word: u16)
    requires
        at + 1 < bytes@.len(),
    ensures
        word == word_at(bytes@, at as int),
{
    let low: u16 = bytes[at] as u16;
    let high: u16 = bytes[at + 1] as u16;
    low + 256 * high
}

/// Reads the immediate value at `at`, of one byte when `w` is 0 and of two
/// bytes otherwise.
fn read_immediate(w: u8, bytes: &[u8], at: usize) -> (operand: Operand)
    requires
        w <= 1,
        at + w < bytes@.len(),
    ensures
        operand == immediate_operand(w, bytes@, at as int),
{
    if w == 0 {
        Operand::Immediate(bytes[at] as u16, OperandWidth::Byte)
    } else {
        Operand::Immediate(read_word(bytes, at), OperandWidth::Word)
    }
}

/// Looks up a general register, and reports a selector outside the table
/// as an invalid value of the field named `field`.
fn read_register(w: u8, bits: u8, field: &'static str) -> (operand: Result<Operand, DecodeError>)
    ensures
        operand == match register_name(w, bits) {
            Some(name) => Ok::<Operand, DecodeError>(Operand::Register(name)),
            None => Err(DecodeError::InvalidField(field, bits)),
        },
{
    match RegisterOp::from_bits(w, bits) {
        Some(name) => Ok(Operand::Register(name)),
        None => Err(DecodeError::InvalidField(field, bits)),
    }
}

/// Reads the displacement that follows the second byte in the given mode.
fn read_displacement(mode: ModEncoding, bytes: &[u8]) -> (displacement: Option<u16>)
    requires
        bytes@.len() >= 2 + mode.displacement_len(),
        mode_of(mode_field(bytes@[1])) == Some(mode),
    ensures
        displacement == displacement_of(bytes@),
{
    match mode {
        ModEncoding::MemMode8B => {
            let byte = bytes[2];
            if byte < 128 {
                Some(byte as u16)
            } else {
                Some(0xFF00u16 + byte as u16)
            }
        },
        ModEncoding::MemMode16B => Some(read_word(bytes, 2)),
        _ => None,
    }
}

/// Decodes an instruction whose form has a second byte.
fn decode_with_mode_byte(form: MovInstructionType, bytes: &[u8]) -> (decoded: Result<
    DecodedInstruction,
    DecodeError,
>)
    requires
        has_mode_byte(form),
        bytes@.len() >= 1,
    ensures
        decoded == decode(form, bytes@),
{
    let available = bytes.len();
    if available < 2 {
        return Err(DecodeError::TruncatedInstruction(2, available));
    }
    let first = bytes[0];
    let second = bytes[1];
    proof {
        lemma_field_values(first);
        lemma_field_values(second);
    }
    let mode_bits = extract_bits(second, 0, 2);
    let reg = extract_bits(second, 2, 5);
    let rm = extract_bits(second, 5, 8);
    let mode = match ModEncoding::from_bits(mode_bits) {
        Some(mode) => mode,
        None => {
            return Err(DecodeError::InvalidField("mod", mode_bits));
        },
    };
    let base = match mode {
        ModEncoding::RegisterMode => None,
        _ => match AddressBase::from_bits(mode, rm) {
            Some(base) => Some(base),
            None => {
                return Err(DecodeError::UnsupportedAddressingMode(mode_bits));
            },
        },
    };
    let (w, reg_side): (u8, Option<Operand>) = match form {
        MovInstructionType::ImmediateToRegisterOrMemory => (extract_bits(first, 7, 8), None),
        MovInstructionType::RegisterOrMemoryToSegmentRegister
        | MovInstructionType::SegmentRegisterToRegisterOrMemory => {
            match RegisterOp::segment_from_bits(reg) {
                Some(name) => (1, Some(Operand::Register(name))),
                None => {
                    return Err(DecodeError::InvalidField("reg", reg));
                },
            }
        },
        _ => {
            let w = extract_bits(first, 7, 8);
            match read_register(w, reg, "reg") {
                Ok(operand) => (w, Some(operand)),
                Err(error) => {
                    return Err(error);
                },
            }
        },
    };
    let displacement_bytes: usize = match mode {
        ModEncoding::MemMode8B => 1,
        ModEncoding::MemMode16B => 2,
        _ => 0,
    };
    let immediate_bytes: usize = match reg_side {
        Some(_) => 0,
        None => 1 + w as usize,
    };
    let needed: usize = 2 + displacement_bytes + immediate_bytes;
    if available < needed {
        return Err(DecodeError::TruncatedInstruction(needed, available));
    }
    let rm_side = match base {
        Some(base) => Operand::Memory(base, read_displacement(mode, bytes)),
        None => match read_register(w, rm, "r/m") {
            Ok(operand) => operand,
            Err(error) => {
                return Err(error);
            },
        },
    };
    let register_is_destination = match form {
        MovInstructionType::RegisterOrMemoryToSegmentRegister => true,
        MovInstructionType::SegmentRegisterToRegisterOrMemory => false,
        _ => extract_bits(first, 6, 7) != 0,
    };
    let (destination, source) = match reg_side {
        None => (rm_side, read_immediate(w, bytes, 2 + displacement_bytes)),
        Some(register) => if register_is_destination {
            (register, rm_side)
        } else {
            (rm_side, register)
        },
    };
    Ok(DecodedInstruction { mnemonic: "mov", destination, source, byte_length: needed })
}

/// Decodes the instruction of the given form that starts at the first byte
/// of `bytes`: its operands, and the number of bytes that it occupies.
/// Bytes after the instruction are not read. A sequence that ends before
/// the instruction does is reported as truncated, with the number of bytes
/// needed and the number at hand.
pub fn decode_operands(form: MovInstructionType, bytes: &[u8]) -> (decoded: Result<
    DecodedInstruction,
    DecodeError,
>)
    ensures
        decoded == decode(form, bytes@),
{
    let available = bytes.len();
    if available < 1 {
        return Err(DecodeError::TruncatedInstruction(1, available));
    }
    let first = bytes[0];
    proof {
        lemma_field_values(first);
    }
    match form {
        MovInstructionType::ImmediateToRegister => {
            let w = extract_bits(first, 4, 5);
            let reg = extract_bits(first, 5, 8);
            let needed: usize = 2 + w as usize;
            if available < needed {
                return Err(DecodeError::TruncatedInstruction(needed, available));
            }
            let destination = match read_register(w, reg, "reg") {
                Ok(operand) => operand,
                Err(error) => {
                    return Err(error);
                },
            };
            let source = read_immediate(w, bytes, 1);
            Ok(DecodedInstruction { mnemonic: "mov", destination, source, byte_length: needed })
        },
        MovInstructionType::MemoryToAccumulator | MovInstructionType::AccumulatorToMemory => {
            let w = extract_bits(first, 7, 8);
            if available < 3 {
                return Err(DecodeError::TruncatedInstruction(3, available));
            }
            let accumulator = match RegisterOp::from_bits(w, 0) {
                Some(name) => Operand::Register(name),
                None => {
                    return Err(DecodeError::InvalidField("w", w));
                },
            };
            let memory = Operand::Memory(AddressBase::Direct, Some(read_word(bytes, 1)));
            let (destination, source) = match form {
                MovInstructionType::MemoryToAccumulator => (accumulator, memory),
                _ => (memory, accumulator),
            };
            Ok(DecodedInstruction { mnemonic: "mov", destination, source, byte_length: 3 })
        },
        _ => decode_with_mode_byte(form, bytes),
    }
}

} // verus!
