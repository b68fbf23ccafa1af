use chip8::instruction::{decode, get_n, get_nn, get_nnn, get_x, get_y, Instruction};

#[test]
fn fields_of_an_opcode() {
    assert_eq!(get_x(0xABCD), 0xB);
    assert_eq!(get_y(0xABCD), 0xC);
    assert_eq!(get_n(0xABCD), 0xD);
    assert_eq!(get_nn(0xABCD), 0xCD);
    assert_eq!(get_nnn(0xABCD), 0xBCD);
    assert_eq!(get_x(0xFFFF), 0xF);
    assert_eq!(get_nnn(0xFFFF), 0xFFF);
    assert_eq!(get_x(0x0000), 0);
    assert_eq!(get_nn(0x00FF), 0xFF);
}

#[test]
fn decode_display_and_flow() {
    assert_eq!(decode(0x00E0), Some(Instruction::ClearScreen));
    assert_eq!(decode(0x00EE), Some(Instruction::Return));
    assert_eq!(decode(0x1234), Some(Instruction::Jump { addr: 0x234 }));
    assert_eq!(decode(0x2FFF), Some(Instruction::Call { addr: 0xFFF }));
    assert_eq!(decode(0xB123), Some(Instruction::JumpOffset { addr: 0x123 }));
}

#[test]
fn decode_skips() {
    assert_eq!(decode(0x3A42), Some(Instruction::SkipIfEqual { x: 0xA, value: 0x42 }));
    assert_eq!(decode(0x4A42), Some(Instruction::SkipIfNotEqual { x: 0xA, value: 0x42 }));
    assert_eq!(decode(0x5120), Some(Instruction::SkipIfRegistersEqual { x: 1, y: 2 }));
    assert_eq!(decode(0x9120), Some(Instruction::SkipIfRegistersNotEqual { x: 1, y: 2 }));
    assert_eq!(decode(0xE39E), Some(Instruction::SkipIfKey { x: 3 }));
    assert_eq!(decode(0xE3A1), Some(Instruction::SkipIfNotKey { x: 3 }));
}

#[test]
fn decode_arithmetic() {
    assert_eq!(decode(0x6C01), Some(Instruction::Load { x: 0xC, value: 1 }));
    assert_eq!(decode(0x7CFF), Some(Instruction::Add { x: 0xC, value: 0xFF }));
    assert_eq!(decode(0x8AB0), Some(Instruction::Move { x: 0xA, y: 0xB }));
    assert_eq!(decode(0x8AB1), Some(Instruction::Or { x: 0xA, y: 0xB }));
    assert_eq!(decode(0x8AB2), Some(Instruction::And { x: 0xA, y: 0xB }));
    assert_eq!(decode(0x8AB3), Some(Instruction::Xor { x: 0xA, y: 0xB }));
    assert_eq!(decode(0x8AB4), Some(Instruction::AddCarry { x: 0xA, y: 0xB }));
    assert_eq!(decode(0x8AB5), Some(Instruction::Subtract { x: 0xA, y: 0xB }));
    assert_eq!(decode(0x8AB6), Some(Instruction::ShiftRight { x: 0xA }));
    assert_eq!(decode(0x8AB7), Some(Instruction::SubtractReversed { x: 0xA, y: 0xB }));
    assert_eq!(decode(0x8ABE), Some(Instruction::ShiftLeft { x: 0xA }));
    assert_eq!(decode(0xC70F), Some(Instruction::Random { x: 7, mask: 0x0F }));
}

#[test]
fn decode_memory_timers_and_drawing() {
    assert_eq!(decode(0xA2F0), Some(Instruction::LoadIndex { addr: 0x2F0 }));
    assert_eq!(decode(0xD125), Some(Instruction::Draw { x: 1, y: 2, rows: 5 }));
    assert_eq!(decode(0xD120), Some(Instruction::Draw { x: 1, y: 2, rows: 0 }));
    assert_eq!(decode(0xF507), Some(Instruction::ReadDelay { x: 5 }));
    assert_eq!(decode(0xF50A), Some(Instruction::WaitKey { x: 5 }));
    assert_eq!(decode(0xF515), Some(Instruction::SetDelay { x: 5 }));
    assert_eq!(decode(0xF518), Some(Instruction::SetSound { x: 5 }));
    assert_eq!(decode(0xF51E), Some(Instruction::AddIndex { x: 5 }));
    assert_eq!(decode(0xF529), Some(Instruction::Glyph { x: 5 }));
    assert_eq!(decode(0xF533), Some(Instruction::StoreDecimal { x: 5 }));
    assert_eq!(decode(0xF555), Some(Instruction::StoreRegisters { x: 5 }));
    assert_eq!(decode(0xF565), Some(Instruction::LoadRegisters { x: 5 }));
}

#[test]
fn opcodes_outside_the_table_denote_nothing() {
    for opcode in [
        0x0000u16, 0x00E1, 0x00EF, 0x01E0, 0x0123, 0x5121, 0x512F, 0x8AB8, 0x8AB9, 0x8ABA, 0x8ABD,
        0x8ABF, 0x9121, 0xE09F, 0xE0A0, 0xE19F, 0xF000, 0xF008, 0xF016,
        0xF01F, 0xF030, 0xF056, 0xF066, 0xF0FF,
    ] {
        assert_eq!(decode(opcode), None, "{:04X}", opcode);
    }
}

#[test]
fn every_opcode_decodes_to_operands_in_range() {
    let mut defined: u32 = 0;
    for opcode in 0..=0xFFFFu16 {
        if let Some(instr) = decode(opcode) {
            defined += 1;
            match instr {
                Instruction::Jump { addr }
                | Instruction::Call { addr }
                | Instruction::LoadIndex { addr }
                | Instruction::JumpOffset { addr } => assert!(addr < 4096),
                Instruction::Draw { x, y, rows } => assert!(x < 16 && y < 16 && rows < 16),
                _ => {}
            }
        }
    }
    // families 1, 2, 3, 4, 6, 7, A, B, C, D are total; 5 and 9 fix one
    // nibble; 8 has nine operations; E two and F nine low bytes; 0 has two
    // opcodes
    assert_eq!(defined, 10 * 4096 + 2 * 256 + 9 * 256 + 2 * 16 + 9 * 16 + 2);
}
