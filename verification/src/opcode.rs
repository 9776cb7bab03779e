//! Classification of the first byte of an instruction into a MOV form.

use vstd::prelude::*;
use crate::error::DecodeError;

verus! {

/// The seven encodings of MOV.
#[derive(Debug, PartialEq, Eq, Clone, Copy, Structural)]
pub enum MovInstructionType {
    /// `100010dw`: between a register and a register or memory operand.
    RegisterOrMemoryToOrFromRegister,
    /// `1100011w`: an immediate value into a register or memory operand.
    ImmediateToRegisterOrMemory,
    /// `1011wreg`: an immediate value into a register.
    ImmediateToRegister,
    /// `1010000w`: from a memory address into the accumulator.
    MemoryToAccumulator,
    /// `1010001w`: from the accumulator into a memory address.
    AccumulatorToMemory,
    /// `1000111x`: from a register or memory operand into a segment register.
    RegisterOrMemoryToSegmentRegister,
    /// `1000110x`: from a segment register into a register or memory operand.
    SegmentRegisterToRegisterOrMemory,
}

/// One row of the classification table: a byte belongs to `form` when its
/// bits under `mask` equal `pattern`.
#[derive(Debug, PartialEq, Eq, Clone, Copy)]
pub struct OpcodeRule {
    pub mask: u8,
    pub pattern: u8,
    pub form: MovInstructionType,
}

/// The classification table, in the order in which it is searched.
pub open spec fn opcode_rules() -> Seq<OpcodeRule> {
    seq![
        OpcodeRule { mask: 0xFC, pattern: 0x88, form: MovInstructionType::RegisterOrMemoryToOrFromRegister },
        OpcodeRule { mask: 0xFE, pattern: 0xA0, form: MovInstructionType::MemoryToAccumulator },
        OpcodeRule { mask: 0xFE, pattern: 0xA2, form: MovInstructionType::AccumulatorToMemory },
        OpcodeRule { mask: 0xF0, pattern: 0xB0, form: MovInstructionType::ImmediateToRegister },
        OpcodeRule { mask: 0xFE, pattern: 0xC6, form: MovInstructionType::ImmediateToRegisterOrMemory },
        OpcodeRule { mask: 0xFE, pattern: 0x8E, form: MovInstructionType::RegisterOrMemoryToSegmentRegister },
        OpcodeRule { mask: 0xFE, pattern: 0x8C, form: MovInstructionType::SegmentRegisterToRegisterOrMemory },
    ]
}

/// Whether `byte` satisfies `rule`.
pub open spec fn rule_matches(rule: OpcodeRule, byte: u8) -> bool {
    byte & rule.mask == rule.pattern
}

/// The form of the first row, at index `from` or later, that `byte`
/// satisfies.
pub open spec fn first_match(rules: Seq<OpcodeRule>, byte: u8, from: int) -> Option<MovInstructionType>
    decreases rules.len() - from,
{
    if from < 0 || from >= rules.len() {
        None
    } else if rule_matches(rules[from], byte) {
        Some(rules[from].form)
    } else {
        first_match(rules, byte, from + 1)
    }
}

/// The form of each byte value, by the ranges that the instruction set
/// documents.
pub open spec fn classify(byte: u8) -> Option<MovInstructionType> {
    if 0x88 <= byte <= 0x8B {
        Some(MovInstructionType::RegisterOrMemoryToOrFromRegister)
    } else if 0x8C <= byte <= 0x8D {
        Some(MovInstructionType::SegmentRegisterToRegisterOrMemory)
    } else if 0x8E <= byte <= 0x8F {
        Some(MovInstructionType::RegisterOrMemoryToSegmentRegister)
    } else if 0xA0 <= byte <= 0xA1 {
        Some(MovInstructionType::MemoryToAccumulator)
    } else if 0xA2 <= byte <= 0xA3 {
        Some(MovInstructionType::AccumulatorToMemory)
    } else if 0xB0 <= byte <= 0xBF {
        Some(MovInstructionType::ImmediateToRegister)
    } else if 0xC6 <= byte <= 0xC7 {
        Some(MovInstructionType::ImmediateToRegisterOrMemory)
    } else {
        None
    }
}

/// Each row of the table is satisfied by exactly the bytes of the range that
/// `classify` gives to the row's form.
pub proof fn lemma_rule_ranges(byte: u8)
    ensures
        forall|i: int|
            0 <= i < opcode_rules().len() ==> (#[trigger] rule_matches(opcode_rules()[i], byte) <==> classify(byte)
                == Some(opcode_rules()[i].form)),
{
    assert(byte & 0xFC == 0x88 <==> 0x88 <= byte <= 0x8B) by (bit_vector);
    assert(byte & 0xFE == 0xA0 <==> 0xA0 <= byte <= 0xA1) by (bit_vector);
    assert(byte & 0xFE == 0xA2 <==> 0xA2 <= byte <= 0xA3) by (bit_vector);
    assert(byte & 0xF0 == 0xB0 <==> 0xB0 <= byte <= 0xBF) by (bit_vector);
    assert(byte & 0xFE == 0xC6 <==> 0xC6 <= byte <= 0xC7) by (bit_vector);
    assert(byte & 0xFE == 0x8E <==> 0x8E <= byte <= 0x8F) by (bit_vector);
    assert(byte & 0xFE == 0x8C <==> 0x8C <= byte <= 0x8D) by (bit_vector);
}

/// No byte satisfies two rows of the table: whatever the order in which the
/// rows are tried, at most one of them fires.
pub proof fn lemma_rules_exclusive(byte: u8, i: int, j: int)
    requires
        0 <= i < opcode_rules().len(),
        0 <= j < opcode_rules().len(),
        rule_matches(opcode_rules()[i], byte),
        rule_matches(opcode_rules()[j], byte),
    ensures
        i == j,
{
    lemma_rule_ranges(byte);
}

/// Classification does not depend on the order of the table: a byte has a
/// form exactly when some row with that form, wherever it stands, is
/// satisfied by the byte.
pub proof fn lemma_classify_is_order_independent(byte: u8, form: MovInstructionType)
    ensures
        classify(byte) == Some(form) <==> exists|i: int|
            0 <= i < opcode_rules().len() && opcode_rules()[i].form == form && #[trigger] rule_matches(
                opcode_rules()[i],
                byte,
            ),
{
    lemma_rule_ranges(byte);
    if classify(byte) == Some(form) {
        let i = choose|i: int| 0 <= i < opcode_rules().len() && opcode_rules()[i].form == form;
        assert(rule_matches(opcode_rules()[i], byte));
    }
}

/// Searching the table from its first row gives the form that `classify`
/// documents.
pub proof fn lemma_first_match_is_classify(byte: u8)
    ensures
        first_match(opcode_rules(), byte, 0) == classify(byte),
{
    lemma_rule_ranges(byte);
    reveal_with_fuel(first_match, 8);
}

impl MovInstructionType {
    /// The classification table, in the order in which it is searched.
    pub fn rules() -> (table: [OpcodeRule; 7])
        ensures
            table@ == opcode_rules(),
    {
        let table: [OpcodeRule; 7] = [
            OpcodeRule { mask: 0xFC, pattern: 0x88, form: MovInstructionType::RegisterOrMemoryToOrFromRegister },
            OpcodeRule { mask: 0xFE, pattern: 0xA0, form: MovInstructionType::MemoryToAccumulator },
            OpcodeRule { mask: 0xFE, pattern: 0xA2, form: MovInstructionType::AccumulatorToMemory },
            OpcodeRule { mask: 0xF0, pattern: 0xB0, form: MovInstructionType::ImmediateToRegister },
            OpcodeRule { mask: 0xFE, pattern: 0xC6, form: MovInstructionType::ImmediateToRegisterOrMemory },
            OpcodeRule { mask: 0xFE, pattern: 0x8E, form: MovInstructionType::RegisterOrMemoryToSegmentRegister },
            OpcodeRule { mask: 0xFE, pattern: 0x8C, form: MovInstructionType::SegmentRegisterToRegisterOrMemory },
        ];
        assert(table@ =~= opcode_rules());
        table
    }

    /// Classifies the first byte of an instruction: the form of the first
    /// row of the table that the byte satisfies, or `None` when the byte
    /// belongs to no MOV form.
    pub fn from_byte(byte: u8) -> (form: Option<MovInstructionType>)
        ensures
            form == classify(byte),
            form == first_match(opcode_rules(), byte, 0),
    {
        let table = Self::rules();
        let mut i: usize = 0;
        while i < 7
            invariant
                i <= 7,
                table@ == opcode_rules(),
                first_match(opcode_rules(), byte, 0) == first_match(opcode_rules(), byte, i as int),
            decreases 7 - i,
        {
            let rule = table[i];
            if byte & rule.mask == rule.pattern {
                proof {
                    lemma_first_match_is_classify(byte);
                }
                return Some(rule.form);
            }
            i += 1;
        }
        proof {
            lemma_first_match_is_classify(byte);
        }
        None
    }

    /// Classifies the first byte of an instruction, and reports a byte that
    /// belongs to no MOV form as an error.
    pub fn find_instruction(byte: u8) -> (found: Result<MovInstructionType, DecodeError>)
        ensures
            found == match classify(byte) {
                Some(form) => Ok::<MovInstructionType, DecodeError>(form),
                None => Err(DecodeError::UnrecognizedOpcode(byte)),
            },
    {
        match Self::from_byte(byte) {
            Some(form) => Ok(form),
            None => Err(DecodeError::UnrecognizedOpcode(byte)),
        }
    }
}

} // verus!
