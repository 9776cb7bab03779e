use mov_decoder::{DecodeError, MovInstructionType};

fn expected_form(opcode: u8) -> Option<MovInstructionType> {
    match opcode {
        0x88..=0x8B => Some(MovInstructionType::RegisterOrMemoryToOrFromRegister),
        0xA0..=0xA1 => Some(MovInstructionType::MemoryToAccumulator),
        0xA2..=0xA3 => Some(MovInstructionType::AccumulatorToMemory),
        0xB0..=0xBF => Some(MovInstructionType::ImmediateToRegister),
        0xC6..=0xC7 => Some(MovInstructionType::ImmediateToRegisterOrMemory),
        0x8E..=0x8F => Some(MovInstructionType::RegisterOrMemoryToSegmentRegister),
        0x8C..=0x8D => Some(MovInstructionType::SegmentRegisterToRegisterOrMemory),
        _ => None,
    }
}

#[test]
fn test_all_valid_opcodes_return_some() {
    for opcode in 0..=255u8 {
        let expected = expected_form(opcode);

        assert_eq!(
            MovInstructionType::from_byte(opcode),
            expected,
            "Incorrect classification for opcode: {:#04X} ({:#010b})",
            opcode,
            opcode
        );
    }
}

#[test]
fn test_find_instruction_agrees_with_from_byte() {
    for opcode in 0..=255u8 {
        let expected = match expected_form(opcode) {
            Some(form) => Ok(form),
            None => Err(DecodeError::UnrecognizedOpcode(opcode)),
        };
        assert_eq!(MovInstructionType::find_instruction(opcode), expected);
    }
}

#[test]
fn test_at_most_one_rule_matches() {
    let rules = MovInstructionType::rules();
    assert_eq!(rules.len(), 7);
    for opcode in 0..=255u8 {
        let matching: Vec<MovInstructionType> = rules
            .iter()
            .filter(|rule| opcode & rule.mask == rule.pattern)
            .map(|rule| rule.form)
            .collect();
        assert!(matching.len() <= 1, "opcode {:#04X} matches {:?}", opcode, matching);
        assert_eq!(matching.first().copied(), MovInstructionType::from_byte(opcode));
    }
}

#[test]
fn test_classification_is_order_independent() {
    let mut rules = MovInstructionType::rules().to_vec();
    rules.reverse();
    for opcode in 0..=255u8 {
        let first_of_reversed = rules
            .iter()
            .find(|rule| opcode & rule.mask == rule.pattern)
            .map(|rule| rule.form);
        assert_eq!(first_of_reversed, MovInstructionType::from_byte(opcode));
    }
}

#[test]
fn test_register_or_memory_to_or_from_register() {
    for opcode in [0x88u8, 0x89, 0x8A, 0x8B] {
        assert_eq!(
            MovInstructionType::find_instruction(opcode),
            Ok(MovInstructionType::RegisterOrMemoryToOrFromRegister),
            "Failed for opcode: {:#010b}",
            opcode
        );
    }
}

#[test]
fn test_memory_to_accumulator() {
    for opcode in [0xA0u8, 0xA1] {
        assert_eq!(
            MovInstructionType::find_instruction(opcode),
            Ok(MovInstructionType::MemoryToAccumulator),
            "Failed for opcode: {:#010b}",
            opcode
        );
    }
}

#[test]
fn test_accumulator_to_memory() {
    for opcode in [0xA2u8, 0xA3] {
        assert_eq!(
            MovInstructionType::find_instruction(opcode),
            Ok(MovInstructionType::AccumulatorToMemory),
            "Failed for opcode: {:#010b}",
            opcode
        );
    }
}

#[test]
fn test_immediate_to_register() {
    for opcode in 0xB0u8..=0xBF {
        assert_eq!(
            MovInstructionType::find_instruction(opcode),
            Ok(MovInstructionType::ImmediateToRegister),
            "Failed for opcode: {:#010b}",
            opcode
        );
    }
}

#[test]
fn test_immediate_to_register_or_memory() {
    for opcode in [0xC6u8, 0xC7] {
        assert_eq!(
            MovInstructionType::find_instruction(opcode),
            Ok(MovInstructionType::ImmediateToRegisterOrMemory),
            "Failed for opcode: {:#010b}",
            opcode
        );
    }
}

#[test]
fn test_register_or_memory_to_segment_register() {
    for opcode in [0x8Eu8, 0x8F] {
        assert_eq!(
            MovInstructionType::find_instruction(opcode),
            Ok(MovInstructionType::RegisterOrMemoryToSegmentRegister),
            "Failed for opcode: {:#010b}",
            opcode
        );
    }
}

#[test]
fn test_segment_register_to_register_or_memory() {
    for opcode in [0x8Cu8, 0x8D] {
        assert_eq!(
            MovInstructionType::find_instruction(opcode),
            Ok(MovInstructionType::SegmentRegisterToRegisterOrMemory),
            "Failed for opcode: {:#010b}",
            opcode
        );
    }
}

#[test]
fn test_invalid_opcodes() {
    for opcode in [0x00u8, 0x01, 0x10, 0x42, 0xD0, 0xFF] {
        assert_eq!(MovInstructionType::from_byte(opcode), None);
        assert_eq!(
            MovInstructionType::find_instruction(opcode),
            Err(DecodeError::UnrecognizedOpcode(opcode))
        );
    }
}
