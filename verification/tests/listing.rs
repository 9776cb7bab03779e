use mov_decoder::{
    decode_operands, disassemble_binary, AddressBase, DecodeError, DecodeFailure,
    DecodedInstruction, MovInstructionType, Operand, OperandWidth,
};

// One instruction, `mov cx, bx`, as the assembler encodes it.
const SINGLE_REGISTER_MOV: [u8; 2] = [0x89, 0xD9];

// Eleven moves between registers, as the assembler encodes them.
const MANY_REGISTER_MOV: [u8; 22] = [
    0x89, 0xD9, 0x88, 0xE5, 0x89, 0xDA, 0x89, 0xDE, 0x89, 0xFB, 0x88, 0xC8, 0x88, 0xED, 0x89, 0xC3,
    0x89, 0xF3, 0x89, 0xFC, 0x89, 0xC5,
];

#[test]
fn test_disassemble_single_register_binary() {
    let bin_file: Vec<u8> = SINGLE_REGISTER_MOV.to_vec();

    let expected_result = r"mov cx, bx";
    assert_eq!(disassemble_binary(&bin_file), Ok(expected_result.to_string()));
}

#[test]
fn test_disassemble_many_register_binary() {
    let bin_file: Vec<u8> = MANY_REGISTER_MOV.to_vec();

    let expected_result = r"mov cx, bx
mov ch, ah
mov dx, bx
mov si, bx
mov bx, di
mov al, cl
mov ch, ch
mov bx, ax
mov bx, si
mov sp, di
mov bp, ax";
    assert_eq!(disassemble_binary(&bin_file), Ok(expected_result.to_string()));
}

#[test]
fn test_disassemble_immediate_to_register_binary() {
    let bin_file: Vec<u8> = SINGLE_REGISTER_MOV.to_vec();

    bin_file.iter().for_each(|byte| {
        println!("{:08b}", byte);
    });

    let expected_result = r"mov cx, bx";
    assert_eq!(disassemble_binary(&bin_file), Ok(expected_result.to_string()));
}

#[test]
fn test_disassemble_empty_input() {
    assert_eq!(disassemble_binary(&[]), Ok(String::new()));
}

#[test]
fn test_disassemble_unrecognized_opcode() {
    assert_eq!(MovInstructionType::from_byte(0x00), None);
    assert_eq!(
        disassemble_binary(&[0x00]),
        Err(DecodeFailure { offset: 0, error: DecodeError::UnrecognizedOpcode(0x00) })
    );
    assert_eq!(
        disassemble_binary(&[0x89, 0xD9, 0xB1, 0x0C, 0x42, 0x89, 0xD9]),
        Err(DecodeFailure { offset: 4, error: DecodeError::UnrecognizedOpcode(0x42) })
    );
}

#[test]
fn test_disassemble_truncated_tail() {
    assert_eq!(
        disassemble_binary(&[0x89, 0xD9, 0x89]),
        Err(DecodeFailure { offset: 2, error: DecodeError::TruncatedInstruction(2, 1) })
    );
    assert_eq!(
        disassemble_binary(&[0x89, 0xD9, 0xC7, 0x85, 0x85, 0x03, 0x5B]),
        Err(DecodeFailure { offset: 2, error: DecodeError::TruncatedInstruction(6, 5) })
    );
    assert_eq!(
        disassemble_binary(&[0xA1]),
        Err(DecodeFailure { offset: 0, error: DecodeError::TruncatedInstruction(3, 1) })
    );
}

#[test]
fn test_disassemble_reports_unsupported_mode_and_invalid_field() {
    assert_eq!(
        disassemble_binary(&[0x89, 0xD9, 0x8B, 0x2E, 0x05, 0x00]),
        Err(DecodeFailure { offset: 2, error: DecodeError::UnsupportedAddressingMode(0) })
    );
    assert_eq!(
        disassemble_binary(&[0xB1, 0x0C, 0x88, 0xE5, 0x8E, 0xE0]),
        Err(DecodeFailure { offset: 4, error: DecodeError::InvalidField("reg", 4) })
    );
}

#[test]
fn test_disassemble_direction_bit() {
    assert_eq!(disassemble_binary(&[0x8A, 0xE5]), Ok("mov ah, ch".to_string()));
    assert_eq!(disassemble_binary(&[0x88, 0xE5]), Ok("mov ch, ah".to_string()));
}

#[test]
fn test_disassemble_immediates_and_memory() {
    let data: Vec<u8> = vec![
        0x89, 0xDE, // mov si, bx
        0x88, 0xC6, // mov dh, al
        0xB1, 0x0C, // mov cl, 12
        0xB5, 0xF4, // mov ch, 244
        0xB9, 0x0C, 0x00, // mov cx, 12
        0xB9, 0xF4, 0xFF, // mov cx, 65524
        0xBA, 0x6C, 0x0F, // mov dx, 3948
        0x8A, 0x00, // mov al, [bx+si]
        0x8B, 0x1B, // mov bx, [bp+di]
        0x8B, 0x56, 0x00, // mov dx, [bp+0]
        0x8A, 0x60, 0x04, // mov ah, [bx+si+4]
        0x8A, 0x80, 0x87, 0x13, // mov al, [bx+si+4999]
        0x89, 0x09, // mov [bx+di], cx
        0x88, 0x0A, // mov [bp+si], cl
        0x88, 0x6E, 0x00, // mov [bp+0], ch
        0x8B, 0x41, 0xDB, // mov ax, [bx+di-37]
        0x89, 0x8C, 0xD4, 0xFE, // mov [si-300], cx
        0x8B, 0x57, 0xE0, // mov dx, [bx-32]
        0xC6, 0x03, 0x07, // mov [bp+di], byte 7
        0xC7, 0x85, 0x85, 0x03, 0x5B, 0x01, // mov [di+901], word 347
        0xA1, 0xFB, 0x09, // mov ax, [2555]
        0xA1, 0x10, 0x00, // mov ax, [16]
        0xA3, 0xFA, 0x09, // mov [2554], ax
        0xA2, 0x0F, 0x00, // mov [15], al
        0x8E, 0xD8, // mov ds, ax
        0x8C, 0xC0, // mov ax, es
        0xC7, 0xC0, 0x00, 0x00, // mov ax, 0
    ];
    let expected = "mov si, bx
mov dh, al
mov cl, 12
mov ch, 244
mov cx, 12
mov cx, 65524
mov dx, 3948
mov al, [bx+si]
mov bx, [bp+di]
mov dx, [bp+0]
mov ah, [bx+si+4]
mov al, [bx+si+4999]
mov [bx+di], cx
mov [bp+si], cl
mov [bp+0], ch
mov ax, [bx+di-37]
mov [si-300], cx
mov dx, [bx-32]
mov [bp+di], byte 7
mov [di+901], word 347
mov ax, [2555]
mov ax, [16]
mov [2554], ax
mov [15], al
mov ds, ax
mov ax, es
mov ax, 0";
    assert_eq!(disassemble_binary(&data), Ok(expected.to_string()));
}

#[test]
fn test_two_instructions_back_to_back() {
    let instructions: [&[u8]; 6] = [
        &[0x89, 0xD9],
        &[0xB1, 0x0C],
        &[0xB9, 0x0C, 0x00],
        &[0x8A, 0x80, 0x87, 0x13],
        &[0xC7, 0x85, 0x85, 0x03, 0x5B, 0x01],
        &[0xA3, 0xFA, 0x09],
    ];
    for first in instructions {
        for second in instructions {
            let first_text = disassemble_binary(first).unwrap();
            let second_text = disassemble_binary(second).unwrap();
            assert!(!first_text.contains('\n'));
            assert!(!second_text.contains('\n'));
            let mut both = first.to_vec();
            both.extend_from_slice(second);
            assert_eq!(disassemble_binary(&both), Ok(format!("{}\n{}", first_text, second_text)));

            let form = MovInstructionType::from_byte(both[0]).unwrap();
            let head = decode_operands(form, &both).unwrap();
            assert_eq!(head.byte_length, first.len());
            let form = MovInstructionType::from_byte(both[head.byte_length]).unwrap();
            let tail = decode_operands(form, &both[head.byte_length..]).unwrap();
            assert_eq!(head.byte_length + tail.byte_length, both.len());
        }
    }
}

#[test]
fn test_listing_has_no_trailing_line_feed() {
    let text = disassemble_binary(&MANY_REGISTER_MOV).unwrap();
    assert!(!text.ends_with('\n'));
    assert_eq!(text.lines().count(), 11);
    assert_eq!(text.matches('\n').count(), 10);
}

#[test]
fn test_operand_text() {
    assert_eq!(Operand::Register("AL").render(), "al");
    assert_eq!(Operand::Register("SP").render(), "sp");
    assert_eq!(Operand::Register("x9Z").render(), "x9z");
    assert_eq!(Operand::Immediate(0, OperandWidth::Byte).render(), "0");
    assert_eq!(Operand::Immediate(5, OperandWidth::Byte).render(), "5");
    assert_eq!(Operand::Immediate(10, OperandWidth::Word).render(), "10");
    assert_eq!(Operand::Immediate(65535, OperandWidth::Word).render(), "65535");
    assert_eq!(Operand::Memory(AddressBase::BxSi, None).render(), "[bx+si]");
    assert_eq!(Operand::Memory(AddressBase::Bp, Some(0)).render(), "[bp+0]");
    assert_eq!(Operand::Memory(AddressBase::Di, Some(0x7FFF)).render(), "[di+32767]");
    assert_eq!(Operand::Memory(AddressBase::Di, Some(0x8000)).render(), "[di-32768]");
    assert_eq!(Operand::Memory(AddressBase::Bx, Some(0xFFFF)).render(), "[bx-1]");
    assert_eq!(Operand::Memory(AddressBase::Direct, Some(0xFFFF)).render(), "[65535]");
    assert_eq!(Operand::Memory(AddressBase::Direct, Some(0)).render(), "[0]");
    assert_eq!(Operand::Memory(AddressBase::Direct, None).render(), "[]");
}

#[test]
fn test_instruction_text() {
    let instruction = DecodedInstruction {
        mnemonic: "mov",
        destination: Operand::Register("CX"),
        source: Operand::Register("BX"),
        byte_length: 2,
    };
    assert_eq!(instruction.render(), "mov cx, bx");
    let instruction = DecodedInstruction {
        mnemonic: "mov",
        destination: Operand::Memory(AddressBase::BpDi, None),
        source: Operand::Immediate(7, OperandWidth::Byte),
        byte_length: 3,
    };
    assert_eq!(instruction.render(), "mov [bp+di], byte 7");
    let instruction = DecodedInstruction {
        mnemonic: "mov",
        destination: Operand::Register("DX"),
        source: Operand::Immediate(7, OperandWidth::Word),
        byte_length: 3,
    };
    assert_eq!(instruction.render(), "mov dx, 7");
    let mut line = String::from("; ");
    instruction.push_text(&mut line);
    assert_eq!(line, "; mov dx, 7");
}
