//! The mathematical model of the machine: its state, and what each
//! instruction, key event and timer tick does to it.
use crate::display::{blank, draw_sprite, grid_wf, sprite_collides};
use crate::font::font;
use crate::instruction::{decode_spec, nibble_x, opcode_of, Instruction};
use vstd::prelude::*;

verus! {

/// Size of the addressable memory in bytes.
pub const MEMORY_SIZE: usize = 4096;

/// Address at which programs are loaded and at which execution starts.
pub const PROGRAM_START: usize = 0x200;

/// Largest program that fits between `PROGRAM_START` and the end of memory.
pub const MAX_PROGRAM_SIZE: usize = 4096 - 0x200;

/// Number of return addresses that the call stack holds.
pub const STACK_DEPTH: usize = 16;

/// Why a program was not loaded.
#[derive(Debug, Clone, Copy, PartialEq, Eq, Structural)]
pub enum LoadError {
    /// The program has more than `MAX_PROGRAM_SIZE` bytes.
    ProgramTooLarge,
}

/// Why an instruction was not executed. Every one of these is fatal to the
/// run: the machine is left as it was and has no valid continuation.
#[derive(Debug, Clone, Copy, PartialEq, Eq, Structural)]
pub enum StepError {
    /// The opcode, carried here, denotes no instruction.
    UnimplementedOpcode(u16),
    /// A call with the stack already full.
    StackOverflow,
    /// A return with the stack empty.
    StackUnderflow,
    /// An access through the index register past the end of memory.
    AddressOutOfBounds,
    /// A key test on a register that holds no key index (16 or more).
    KeyOutOfRange,
}

/// How an instruction moves the program counter.
pub enum Transfer {
    /// On to the next instruction: two bytes further.
    Next,
    /// Over the next instruction: four bytes further.
    Skip,
    /// To the given address.
    Jump(int),
    /// Nowhere: the machine waits for a key.
    Suspend,
}

impl Transfer {
    /// The transfer of a conditional skip: over the next instruction if the
    /// condition holds, on to it otherwise.
    pub open spec fn skip_if(condition: bool) -> Transfer {
        if condition {
            Transfer::Skip
        } else {
            Transfer::Next
        }
    }
}

/// The program counter after a transfer. Addresses have 12 bits: the counter
/// wraps at the end of memory.
pub open spec fn advance(pc: int, t: Transfer) -> int {
    match t {
        Transfer::Next => (pc + 2) % 4096,
        Transfer::Skip => (pc + 4) % 4096,
        Transfer::Jump(addr) => addr % 4096,
        Transfer::Suspend => pc,
    }
}

/// The state of the machine.
#[verifier::ext_equal]
pub struct MachineState {
    /// The 4096 bytes of memory.
    pub memory: Seq<u8>,
    /// The 16 general registers `V[0]` to `V[F]`.
    pub v: Seq<u8>,
    /// The index register `I`, of 16 bits.
    pub i: int,
    /// The program counter: the address of the next instruction.
    pub pc: int,
    /// The 16 slots of the call stack.
    pub stack: Seq<u16>,
    /// The number of return addresses on the call stack.
    pub sp: int,
    /// The delay timer.
    pub delay_timer: u8,
    /// The sound timer.
    pub sound_timer: u8,
    /// The pixel grid, 32 rows of 64 pixels.
    pub display: Seq<Seq<bool>>,
    /// Which of the 16 keys are down.
    pub keypad: Seq<bool>,
    /// Whether the machine is suspended until a key is pressed.
    pub waiting_key: bool,
}

impl MachineState {
    /// The invariant of the machine: the shape of its parts, a program
    /// counter inside memory, and a call stack of at most 16 addresses that
    /// all lie inside memory.
    pub open spec fn wf(self) -> bool {
        &&& self.memory.len() == 4096
        &&& self.v.len() == 16
        &&& 0 <= self.i <= 0xFFFF
        &&& 0 <= self.pc < 4096
        &&& self.stack.len() == 16
        &&& 0 <= self.sp <= 16
        &&& forall|k: int| 0 <= k < self.sp ==> #[trigger] self.stack[k] < 4096
        &&& grid_wf(self.display)
        &&& self.keypad.len() == 16
    }

    /// The machine as constructed: the glyphs at the bottom of memory,
    /// everything else zero, running, about to execute at `0x200`.
    pub open spec fn initial() -> MachineState {
        MachineState {
            memory: Seq::new(
                4096,
                |a: int|
                    if 0 <= a < 80 {
                        font()[a]
                    } else {
                        0u8
                    },
            ),
            v: Seq::new(16, |k: int| 0u8),
            i: 0,
            pc: 0x200,
            stack: Seq::new(16, |k: int| 0u16),
            sp: 0,
            delay_timer: 0,
            sound_timer: 0,
            display: blank(),
            keypad: Seq::new(16, |k: int| false),
            waiting_key: false,
        }
    }

    /// The machine with `program` copied into memory from `0x200` on.
    pub open spec fn load(self, program: Seq<u8>) -> MachineState {
        MachineState {
            memory: Seq::new(
                4096,
                |a: int|
                    if 0x200 <= a < 0x200 + program.len() {
                        program[a - 0x200]
                    } else {
                        self.memory[a]
                    },
            ),
            ..self
        }
    }

    /// The opcode at the program counter: the byte there is its high half,
    /// the byte after it, wrapping at the end of memory, its low half.
    pub open spec fn fetch(self) -> u16 {
        opcode_of(self.memory[self.pc], self.memory[(self.pc + 1) % 4096])
    }

    /// The address pushed by a call: that of the instruction after it.
    pub open spec fn return_address(self) -> u16 {
        ((self.pc + 2) % 4096) as u16
    }

    /// The bytes that a draw instruction of `rows` rows reads.
    pub open spec fn sprite(self, rows: int) -> Seq<u8> {
        self.memory.subrange(self.i, self.i + rows)
    }

    /// The value of register `V[x]`.
    pub open spec fn reg(self, x: usize) -> u8 {
        self.v[x as int]
    }

    /// This state with register `V[x]` set to `value`.
    pub open spec fn with_reg(self, x: usize, value: u8) -> MachineState {
        MachineState { v: self.v.update(x as int, value), ..self }
    }

    /// This state with the flag register `V[F]` set to 1 or 0.
    pub open spec fn with_flag(self, flag: bool) -> MachineState {
        self.with_reg(
            0xF,
            if flag {
                1u8
            } else {
                0u8
            },
        )
    }

    /// The fault that stops `instr` in this state, if any.
    pub open spec fn fault(self, instr: Instruction) -> Option<StepError> {
        match instr {
            Instruction::Return => if self.sp == 0 {
                Some(StepError::StackUnderflow)
            } else {
                None
            },
            Instruction::Call { addr } => if self.sp == 16 {
                Some(StepError::StackOverflow)
            } else {
                None
            },
            Instruction::Draw { x, y, rows } => if self.i + rows > 4096 {
                Some(StepError::AddressOutOfBounds)
            } else {
                None
            },
            Instruction::SkipIfKey { x } => if self.reg(x) >= 16 {
                Some(StepError::KeyOutOfRange)
            } else {
                None
            },
            Instruction::SkipIfNotKey { x } => if self.reg(x) >= 16 {
                Some(StepError::KeyOutOfRange)
            } else {
                None
            },
            Instruction::StoreDecimal { x } => if self.i + 2 >= 4096 {
                Some(StepError::AddressOutOfBounds)
            } else {
                None
            },
            Instruction::StoreRegisters { x } => if self.i + x >= 4096 {
                Some(StepError::AddressOutOfBounds)
            } else {
                None
            },
            Instruction::LoadRegisters { x } => if self.i + x >= 4096 {
                Some(StepError::AddressOutOfBounds)
            } else {
                None
            },
            _ => None,
        }
    }

    /// How `instr`, executed in this state, moves the program counter.
    pub open spec fn transfer(self, instr: Instruction) -> Transfer {
        match instr {
            Instruction::Return => Transfer::Jump(self.stack[self.sp - 1] as int),
            Instruction::Jump { addr } => Transfer::Jump(addr as int),
            Instruction::Call { addr } => Transfer::Jump(addr as int),
            Instruction::SkipIfEqual { x, value } => Transfer::skip_if(self.reg(x) == value),
            Instruction::SkipIfNotEqual { x, value } => Transfer::skip_if(self.reg(x) != value),
            Instruction::SkipIfRegistersEqual { x, y } => Transfer::skip_if(
                self.reg(x) == self.reg(y),
            ),
            Instruction::SkipIfRegistersNotEqual { x, y } => Transfer::skip_if(
                self.reg(x) != self.reg(y),
            ),
            Instruction::JumpOffset { addr } => Transfer::Jump(addr + self.reg(0)),
            Instruction::SkipIfKey { x } => Transfer::skip_if(self.keypad[self.reg(x) as int]),
            Instruction::SkipIfNotKey { x } => Transfer::skip_if(!self.keypad[self.reg(x) as int]),
            Instruction::WaitKey { x } => Transfer::Suspend,
            _ => Transfer::Next,
        }
    }

    /// What `instr`, executed in this state with the random byte `random`,
    /// does to everything but the program counter. Where an instruction sets
    /// the flag register `V[F]` and then `V[x]`, the flag is written first and
    /// the operands of the second write are read after it.
    pub open spec fn effect(self, instr: Instruction, random: u8) -> MachineState {
        match instr {
            Instruction::ClearScreen => MachineState { display: blank(), ..self },
            Instruction::Return => MachineState { sp: self.sp - 1, ..self },
            Instruction::Call { addr } => MachineState {
                stack: self.stack.update(self.sp, self.return_address()),
                sp: self.sp + 1,
                ..self
            },
            Instruction::Load { x, value } => self.with_reg(x, value),
            Instruction::Add { x, value } => self.with_reg(x, self.reg(x).wrapping_add(value)),
            Instruction::Move { x, y } => self.with_reg(x, self.reg(y)),
            Instruction::Or { x, y } => self.with_reg(x, self.reg(x) | self.reg(y)),
            Instruction::And { x, y } => self.with_reg(x, self.reg(x) & self.reg(y)),
            Instruction::Xor { x, y } => self.with_reg(x, self.reg(x) ^ self.reg(y)),
            Instruction::AddCarry { x, y } => {
                let sum = self.reg(x).wrapping_add(self.reg(y));
                self.with_flag(self.reg(x) + self.reg(y) > 255).with_reg(x, sum)
            },
            Instruction::Subtract { x, y } => {
                let s = self.with_flag(self.reg(x) > self.reg(y));
                s.with_reg(x, s.reg(x).wrapping_sub(s.reg(y)))
            },
            Instruction::ShiftRight { x } => {
                let s = self.with_flag(self.reg(x) % 2 == 1);
                s.with_reg(x, s.reg(x) / 2)
            },
            Instruction::SubtractReversed { x, y } => {
                let s = self.with_flag(self.reg(y) > self.reg(x));
                s.with_reg(x, s.reg(y).wrapping_sub(s.reg(x)))
            },
            Instruction::ShiftLeft { x } => {
                let s = self.with_flag(self.reg(x) >= 128);
                s.with_reg(x, ((s.reg(x) * 2) % 256) as u8)
            },
            Instruction::LoadIndex { addr } => MachineState { i: addr as int, ..self },
            Instruction::Random { x, mask } => self.with_reg(x, mask & random),
            Instruction::Draw { x, y, rows } => {
                let column = self.reg(x) as int;
                let row = self.reg(y) as int;
                let sprite = self.sprite(rows as int);
                MachineState {
                    display: draw_sprite(self.display, column, row, sprite),
                    ..self
                }.with_flag(sprite_collides(self.display, column, row, sprite))
            },
            Instruction::ReadDelay { x } => self.with_reg(x, self.delay_timer),
            Instruction::WaitKey { x } => MachineState { waiting_key: true, ..self },
            Instruction::SetDelay { x } => MachineState { delay_timer: self.reg(x), ..self },
            Instruction::SetSound { x } => MachineState { sound_timer: self.reg(x), ..self },
            Instruction::AddIndex { x } => MachineState {
                i: if self.i + self.reg(x) > 0xFFFF {
                    0xFFFF
                } else {
                    self.i + self.reg(x)
                },
                ..self
            },
            Instruction::Glyph { x } => MachineState { i: self.reg(x) * 5, ..self },
            Instruction::StoreDecimal { x } => MachineState {
                memory: self.memory.update(self.i, self.reg(x) / 100).update(
                    self.i + 1,
                    (self.reg(x) % 100) / 10,
                ).update(self.i + 2, self.reg(x) % 10),
                ..self
            },
            Instruction::StoreRegisters { x } => MachineState {
                memory: Seq::new(
                    4096,
                    |a: int|
                        if self.i <= a <= self.i + x {
                            self.v[a - self.i]
                        } else {
                            self.memory[a]
                        },
                ),
                ..self
            },
            Instruction::LoadRegisters { x } => MachineState {
                v: Seq::new(
                    16,
                    |k: int|
                        if k <= x {
                            self.memory[self.i + k]
                        } else {
                            self.v[k]
                        },
                ),
                ..self
            },
            _ => self,
        }
    }

    /// The state after `instr` has been executed without fault.
    pub open spec fn apply(self, instr: Instruction, random: u8) -> MachineState {
        MachineState {
            pc: advance(self.pc, self.transfer(instr)),
            ..self.effect(instr, random)
        }
    }

    /// Whether executing `instr` in this state succeeds, and the error if it
    /// does not.
    pub open spec fn result_of(self, instr: Instruction) -> Result<(), StepError> {
        match self.fault(instr) {
            Some(e) => Err(e),
            None => Ok(()),
        }
    }

    /// The state after executing `instr` with the random byte `random`: on
    /// a fault the state is unchanged.
    pub open spec fn perform(self, instr: Instruction, random: u8) -> MachineState {
        if self.fault(instr) is None {
            self.apply(instr, random)
        } else {
            self
        }
    }

    /// Whether executing `opcode` in this state succeeds, and the error if
    /// it does not.
    pub open spec fn outcome(self, opcode: u16) -> Result<(), StepError> {
        match decode_spec(opcode) {
            None => Err(StepError::UnimplementedOpcode(opcode)),
            Some(instr) => self.result_of(instr),
        }
    }

    /// The state after executing `opcode` with the random byte `random`: on
    /// an error the state is unchanged.
    pub open spec fn execute(self, opcode: u16, random: u8) -> MachineState {
        match decode_spec(opcode) {
            None => self,
            Some(instr) => self.perform(instr, random),
        }
    }

    /// Whether `opcode` is the random-number instruction, the only one whose
    /// effect depends on the random byte.
    pub open spec fn draws_random(opcode: u16) -> bool {
        decode_spec(opcode) matches Some(Instruction::Random { .. })
    }

    /// Whether a step in this state executes the random-number instruction.
    pub open spec fn step_draws_random(self) -> bool {
        !self.waiting_key && Self::draws_random(self.fetch())
    }

    /// The result of one step: a suspended machine does nothing, a running
    /// one executes the opcode at the program counter.
    pub open spec fn step_outcome(self) -> Result<(), StepError> {
        if self.waiting_key {
            Ok(())
        } else {
            self.outcome(self.fetch())
        }
    }

    /// The state after one step with the random byte `random`.
    pub open spec fn step(self, random: u8) -> MachineState {
        if self.waiting_key {
            self
        } else {
            self.execute(self.fetch(), random)
        }
    }

    /// The state after key `index` went down (`pressed`) or up. A press
    /// while the machine is suspended resolves the wait: the register named
    /// by the instruction at the program counter receives the key, and the
    /// machine runs on behind that instruction.
    pub open spec fn key_event(self, index: int, pressed: bool) -> MachineState {
        let keypad = self.keypad.update(index, pressed);
        if self.waiting_key && pressed {
            MachineState {
                keypad,
                waiting_key: false,
                v: self.v.update(nibble_x(self.fetch()), index as u8),
                pc: (self.pc + 2) % 4096,
                ..self
            }
        } else {
            MachineState { keypad, ..self }
        }
    }

    /// Whether a timer tick in this state sounds the tone: it does on the
    /// tick that takes the sound timer from 1 to 0.
    pub open spec fn tone(self) -> bool {
        self.sound_timer == 1
    }

    /// The state after a timer tick: each timer that is not zero goes down
    /// by one.
    pub open spec fn tick(self) -> MachineState {
        MachineState {
            delay_timer: if self.delay_timer > 0 {
                (self.delay_timer - 1) as u8
            } else {
                0u8
            },
            sound_timer: if self.sound_timer > 0 {
                (self.sound_timer - 1) as u8
            } else {
                0u8
            },
            ..self
        }
    }
}

} // verus!
