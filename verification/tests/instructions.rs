use chip8::instruction::Instruction;
use chip8::machine::StepError;
use chip8::system::System;

#[test]
fn random_masks_the_byte_that_is_drawn() {
    let mut system = System::new();
    assert_eq!(system.execute_instruction(Instruction::Random { x: 2, mask: 0x3C }, 0xFF), Ok(()));
    assert_eq!(system.register(2), 0x3C);
    assert_eq!(system.execute_instruction(Instruction::Random { x: 2, mask: 0x3C }, 0xA5), Ok(()));
    assert_eq!(system.register(2), 0x24);
    assert_eq!(system.execute_instruction(Instruction::Random { x: 3, mask: 0xFF }, 0x5A), Ok(()));
    assert_eq!(system.register(3), 0x5A);
    assert_eq!(system.register(0xF), 0);
    assert_eq!(system.pc(), 0x206);
}

#[test]
fn random_opcode_stays_inside_the_mask() {
    let mut system = System::new();
    for _ in 0..200 {
        assert_eq!(system.execute_opcode(0xC40F), Ok(()));
        assert!(system.register(4) <= 0x0F);
        assert_eq!(system.execute_opcode(0xC500), Ok(()));
        assert_eq!(system.register(5), 0);
    }
    assert_eq!(system.pc(), (0x200 + 400 * 2) % 4096);
}

#[test]
fn random_opcode_draws_different_bytes() {
    let mut system = System::new();
    let mut seen = [false; 256];
    for _ in 0..4096 {
        assert_eq!(system.execute_opcode(0xC0FF), Ok(()));
        seen[system.register(0) as usize] = true;
    }
    assert!(seen.iter().filter(|s| **s).count() > 128);
}

#[test]
fn other_instructions_ignore_the_random_byte() {
    let mut a = System::new();
    let mut b = System::new();
    for instr in [
        Instruction::Load { x: 1, value: 0x80 },
        Instruction::Add { x: 1, value: 0x90 },
        Instruction::AddCarry { x: 1, y: 1 },
        Instruction::LoadIndex { addr: 0x400 },
        Instruction::StoreRegisters { x: 3 },
        Instruction::Call { addr: 0x300 },
    ] {
        assert_eq!(a.execute_instruction(instr, 0x00), Ok(()));
        assert_eq!(b.execute_instruction(instr, 0xFF), Ok(()));
    }
    assert_eq!(a.pc(), b.pc());
    assert_eq!(a.pc(), 0x300);
    for x in 0..16 {
        assert_eq!(a.register(x), b.register(x));
    }
    assert_eq!(a.register(1), 0x20);
    assert_eq!(a.register(0xF), 0);
    assert_eq!(a.memory_at(0x401), 0x20);
}

#[test]
fn execute_opcode_does_not_consult_the_wait() {
    let mut system = System::new();
    assert_eq!(system.execute_opcode(0xF30A), Ok(()));
    assert!(system.is_waiting_for_key());
    assert_eq!(system.pc(), 0x200);
    assert_eq!(system.execute_opcode(0x6155), Ok(()));
    assert_eq!(system.register(1), 0x55);
    assert_eq!(system.pc(), 0x202);
    assert_eq!(system.step(), Ok(()));
    assert_eq!(system.pc(), 0x202);
}

#[test]
fn a_press_stores_the_key_in_the_register_named_at_the_program_counter() {
    let mut system = System::new();
    assert_eq!(system.load_program(&[0xFE, 0x0A]), Ok(()));
    assert_eq!(system.step(), Ok(()));
    system.handle_key_event(0xF, true);
    assert_eq!(system.register(0xE), 0xF);
    assert_eq!(system.register(0xF), 0);
    assert_eq!(system.pc(), 0x202);
    assert!(!system.is_waiting_for_key());
}

#[test]
fn flag_register_as_operand_is_read_after_the_flag_is_written() {
    // VF = 9, V1 = 3: VF - V1 sets the flag to 1 first, then computes 1 - 3
    let mut system = System::new();
    assert_eq!(system.execute_instruction(Instruction::Load { x: 0xF, value: 9 }, 0), Ok(()));
    assert_eq!(system.execute_instruction(Instruction::Load { x: 1, value: 3 }, 0), Ok(()));
    assert_eq!(system.execute_instruction(Instruction::Subtract { x: 0xF, y: 1 }, 0), Ok(()));
    assert_eq!(system.register(0xF), 0xFE);

    // V1 = 3, VF = 9 as subtrahend: flag 0 is written first, then 3 - 0
    let mut system = System::new();
    assert_eq!(system.execute_instruction(Instruction::Load { x: 0xF, value: 9 }, 0), Ok(()));
    assert_eq!(system.execute_instruction(Instruction::Load { x: 1, value: 3 }, 0), Ok(()));
    assert_eq!(system.execute_instruction(Instruction::Subtract { x: 1, y: 0xF }, 0), Ok(()));
    assert_eq!(system.register(1), 3);
    assert_eq!(system.register(0xF), 0);

    // shifting VF: the flag is written, then shifted
    let mut system = System::new();
    assert_eq!(system.execute_instruction(Instruction::Load { x: 0xF, value: 0x83 }, 0), Ok(()));
    assert_eq!(system.execute_instruction(Instruction::ShiftRight { x: 0xF }, 0), Ok(()));
    assert_eq!(system.register(0xF), 0);
    assert_eq!(system.execute_instruction(Instruction::Load { x: 0xF, value: 0x83 }, 0), Ok(()));
    assert_eq!(system.execute_instruction(Instruction::ShiftLeft { x: 0xF }, 0), Ok(()));
    assert_eq!(system.register(0xF), 2);
}

#[test]
fn faults_leave_the_program_counter_in_place() {
    let mut system = System::new();
    assert_eq!(system.execute_instruction(Instruction::Return, 0), Err(StepError::StackUnderflow));
    assert_eq!(system.execute_opcode(0xFFFF), Err(StepError::UnimplementedOpcode(0xFFFF)));
    assert_eq!(system.pc(), 0x200);
    for _ in 0..16 {
        assert_eq!(system.execute_instruction(Instruction::Call { addr: 0x200 }, 0), Ok(()));
    }
    assert_eq!(
        system.execute_instruction(Instruction::Call { addr: 0x400 }, 0),
        Err(StepError::StackOverflow)
    );
    assert_eq!(system.pc(), 0x200);
    assert_eq!(system.stack_depth(), 16);
}
