//! The machine itself: memory, registers, call stack, timers, keypad and
//! display, driven by `step`, `tick_timers` and `handle_key_event`.
use crate::display::Display;
use crate::font::FONTSET;
use crate::instruction::{decode, decode_spec, get_x, opcode_of, Instruction};
use crate::machine_laws::lemma_perform_wf;
use crate::machine::{
    LoadError, MachineState, StepError, Transfer, MAX_PROGRAM_SIZE, MEMORY_SIZE, PROGRAM_START,
    STACK_DEPTH,
};
use crate::random::random_byte;
use vstd::prelude::*;

verus! {

/// How an executed instruction moves the program counter.
enum ProgramCounter {
    Next,
    Skip,
    Jump(u16),
    Suspend,
}

impl View for ProgramCounter {
    type V = Transfer;

    closed spec fn view(&self) -> Transfer {
        match *self {
            ProgramCounter::Next => Transfer::Next,
            ProgramCounter::Skip => Transfer::Skip,
            ProgramCounter::Jump(addr) => Transfer::Jump(addr as int),
            ProgramCounter::Suspend => Transfer::Suspend,
        }
    }
}

impl ProgramCounter {
    /// Over the next instruction if `condition` holds, on to it otherwise.
    fn skip_if(condition: bool) -> (to: ProgramCounter)
        ensures
            to@ == Transfer::skip_if(condition),
    {
        if condition {
            ProgramCounter::Skip
        } else {
            ProgramCounter::Next
        }
    }
}

/// The virtual machine.
pub struct System {
    memory: [u8; 4096],
    v: [u8; 16],
    i: u16,
    pc: usize,
    stack: [u16; 16],
    sp: usize,
    delay_timer: u8,
    sound_timer: u8,
    display: Display,
    keypad: [bool; 16],
    waiting_key: bool,
}

impl View for System {
    type V = MachineState;

    closed spec fn view(&self) -> MachineState {
        MachineState {
            memory: self.memory@,
            v: self.v@,
            i: self.i as int,
            pc: self.pc as int,
            stack: self.stack@,
            sp: self.sp as int,
            delay_timer: self.delay_timer,
            sound_timer: self.sound_timer,
            display: self.display@,
            keypad: self.keypad@,
            waiting_key: self.waiting_key,
        }
    }
}

impl System {
    /// A machine with the glyphs in memory and everything else zero, about
    /// to execute at `0x200`.
    pub fn new() -> (system: System)
        ensures
            system@ == MachineState::initial(),
            system@.wf(),
    {
        let mut system = System {
            memory: [0; 4096],
            v: [0; 16],
            i: 0,
            pc: PROGRAM_START,
            stack: [0; 16],
            sp: 0,
            delay_timer: 0,
            sound_timer: 0,
            display: Display::new(),
            keypad: [false; 16],
            waiting_key: false,
        };
        let mut k: usize = 0;
        while k < 80
            invariant
                k <= 80,
                forall|a: int|
                    0 <= a < 4096 ==> system.memory[a] == (if a < k {
                        FONTSET[a]
                    } else {
                        0u8
                    }),
                system.v@ == Seq::new(16, |k: int| 0u8),
                system.i == 0,
                system.pc == 0x200,
                system.stack@ == Seq::new(16, |k: int| 0u16),
                system.sp == 0,
                system.delay_timer == 0,
                system.sound_timer == 0,
                system.display@ == crate::display::blank(),
                system.keypad@ == Seq::new(16, |k: int| false),
                !system.waiting_key,
            decreases 80 - k,
        {
            system.memory[k] = FONTSET[k];
            k += 1;
        }
        proof {
            system.display.view_is_grid();
        }
        system
    }

    /// Copies `data` into memory from `0x200` on. A program of more than
    /// 3584 bytes does not fit: it is refused and the machine is left as it
    /// was.
    pub fn load_program(&mut self, data: &[u8]) -> (res: Result<(), LoadError>)
        requires
            old(self)@.wf(),
        ensures
            final(self)@.wf(),
            data@.len() <= MAX_PROGRAM_SIZE ==> res == Ok::<(), LoadError>(()) && final(self)@
                == old(self)@.load(data@),
            data@.len() > MAX_PROGRAM_SIZE ==> res == Err::<(), LoadError>(
                LoadError::ProgramTooLarge,
            ) && final(self)@ == old(self)@,
    {
        if data.len() > MAX_PROGRAM_SIZE {
            return Err(LoadError::ProgramTooLarge);
        }
        let mut k: usize = 0;
        while k < data.len()
            invariant
                k <= data.len(),
                data@.len() <= 3584,
                forall|a: int|
                    0 <= a < 4096 ==> self.memory[a] == (if 0x200 <= a < 0x200 + k {
                        data@[a - 0x200]
                    } else {
                        old(self).memory[a]
                    }),
                self.v == old(self).v,
                self.i == old(self).i,
                self.pc == old(self).pc,
                self.stack == old(self).stack,
                self.sp == old(self).sp,
                self.delay_timer == old(self).delay_timer,
                self.sound_timer == old(self).sound_timer,
                self.display == old(self).display,
                self.keypad == old(self).keypad,
                self.waiting_key == old(self).waiting_key,
            decreases data.len() - k,
        {
            self.memory[PROGRAM_START + k] = data[k];
            k += 1;
        }
        Ok(())
    }

    /// One tick of the 60 Hz clock: each timer that is not zero goes down by
    /// one. Returns whether the tone sounds, which it does on the tick that
    /// takes the sound timer from 1 to 0.
    pub fn tick_timers(&mut self) -> (tone: bool)
        requires
            old(self)@.wf(),
        ensures
            final(self)@.wf(),
            final(self)@ == old(self)@.tick(),
            tone == old(self)@.tone(),
            tone <==> old(self)@.sound_timer == 1 && final(self)@.sound_timer == 0,
    {
        let mut tone = false;
        if self.delay_timer > 0 {
            self.delay_timer -= 1;
        }
        if self.sound_timer > 0 {
            if self.sound_timer == 1 {
                tone = true;
            }
            self.sound_timer -= 1;
        }
        tone
    }

    /// Records that key `index` went down (`pressed`) or up. If the machine
    /// is waiting for a key and this is a press, the wait ends: the register
    /// named by the instruction at the program counter receives `index`, and
    /// the program counter moves past that instruction.
    pub fn handle_key_event(&mut self, index: usize, pressed: bool)
        requires
            old(self)@.wf(),
            index < 16,
        ensures
            final(self)@.wf(),
            final(self)@ == old(self)@.key_event(index as int, pressed),
    {
        self.keypad[index] = pressed;
        if self.waiting_key && pressed {
            self.waiting_key = false;
            let opcode: u16 = self.fetch();
            let x: usize = get_x(opcode);
            self.v[x] = index as u8;
            self.pc = (self.pc + 2) % MEMORY_SIZE;
        }
    }

    /// The opcode at the program counter, most significant byte first. The
    /// second byte of an opcode at the last address is the byte at address 0.
    pub fn fetch(&self) -> (opcode: u16)
        requires
            self@.wf(),
        ensures
            opcode == self@.fetch(),
    {
        let high: u8 = self.memory[self.pc];
        let low: u8 = self.memory[(self.pc + 1) % MEMORY_SIZE];
        assert((high as u16) << 8 | (low as u16) == opcode_of(high, low)) by (bit_vector);
        (high as u16) << 8 | (low as u16)
    }

    /// One cycle of the processor. A machine that waits for a key does
    /// nothing; a running one fetches the opcode at the program counter and
    /// executes it. On an error nothing has changed. The random-number
    /// instruction draws its byte from the thread's generator: of a step
    /// that executes it, the result is the one for some byte.
    pub fn step(&mut self) -> (res: Result<(), StepError>)
        requires
            old(self)@.wf(),
        ensures
            final(self)@.wf(),
            res == old(self)@.step_outcome(),
            exists|random: u8| final(self)@ == old(self)@.step(random),
            !old(self)@.step_draws_random() ==> final(self)@ == old(self)@.step(0),
    {
        if self.waiting_key {
            assert(self@ == old(self)@.step(0));
            return Ok(());
        }
        let opcode: u16 = self.fetch();
        let res = self.execute_opcode(opcode);
        proof {
            let random = choose|random: u8| self@ == old(self)@.execute(opcode, random);
            assert(self@ == old(self)@.step(random));
        }
        res
    }

    /// Executes `opcode`, whether or not the machine waits for a key. An
    /// opcode that denotes no instruction is an error. The random-number
    /// instruction draws its byte from the thread's generator.
    pub fn execute_opcode(&mut self, opcode: u16) -> (res: Result<(), StepError>)
        requires
            old(self)@.wf(),
        ensures
            final(self)@.wf(),
            res == old(self)@.outcome(opcode),
            exists|random: u8| final(self)@ == old(self)@.execute(opcode, random),
            !MachineState::draws_random(opcode) ==> final(self)@ == old(self)@.execute(opcode, 0),
    {
        match decode(opcode) {
            None => {
                assert(self@ == old(self)@.execute(opcode, 0));
                Err(StepError::UnimplementedOpcode(opcode))
            },
            Some(instr) => {
                let random: u8 = match instr {
                    Instruction::Random { .. } => random_byte(),
                    _ => 0,
                };
                let res = self.execute_instruction(instr, random);
                assert(self@ == old(self)@.execute(opcode, random));
                res
            },
        }
    }

    /// Executes `instr`, with `random` as the byte that the random-number
    /// instruction draws. On a fault nothing has changed.
    pub fn execute_instruction(&mut self, instr: Instruction, random: u8) -> (res: Result<
        (),
        StepError,
    >)
        requires
            old(self)@.wf(),
            instr.wf(),
        ensures
            final(self)@.wf(),
            res == old(self)@.result_of(instr),
            final(self)@ == old(self)@.perform(instr, random),
    {
        proof {
            lemma_perform_wf(self@, instr, random);
        }
        let to: ProgramCounter = match instr {
            Instruction::ClearScreen => {
                self.display.clear();
                ProgramCounter::Next
            },
            Instruction::Return => {
                match self.pop_return_address() {
                    Ok(addr) => ProgramCounter::Jump(addr),
                    Err(e) => {
                        return Err(e);
                    },
                }
            },
            Instruction::Jump { addr } => ProgramCounter::Jump(addr),
            Instruction::Call { addr } => {
                match self.push_return_address() {
                    Ok(()) => ProgramCounter::Jump(addr),
                    Err(e) => {
                        return Err(e);
                    },
                }
            },
            Instruction::SkipIfEqual { x, value } => ProgramCounter::skip_if(
                self.register(x) == value,
            ),
            Instruction::SkipIfNotEqual { x, value } => ProgramCounter::skip_if(
                self.register(x) != value,
            ),
            Instruction::SkipIfRegistersEqual { x, y } => ProgramCounter::skip_if(
                self.register(x) == self.register(y),
            ),
            Instruction::Load { x, value } => {
                self.set_register(x, value);
                ProgramCounter::Next
            },
            Instruction::Add { x, value } => {
                self.set_register(x, self.register(x).wrapping_add(value));
                ProgramCounter::Next
            },
            Instruction::Move { x, y } => {
                self.set_register(x, self.register(y));
                ProgramCounter::Next
            },
            Instruction::Or { x, y } => {
                self.set_register(x, self.register(x) | self.register(y));
                ProgramCounter::Next
            },
            Instruction::And { x, y } => {
                self.set_register(x, self.register(x) & self.register(y));
                ProgramCounter::Next
            },
            Instruction::Xor { x, y } => {
                self.set_register(x, self.register(x) ^ self.register(y));
                ProgramCounter::Next
            },
            Instruction::AddCarry { x, y } => {
                let carry: bool = self.register(x) as u16 + self.register(y) as u16 > 0xFF;
                let sum: u8 = self.register(x).wrapping_add(self.register(y));
                self.set_flag(carry);
                self.set_register(x, sum);
                ProgramCounter::Next
            },
            Instruction::Subtract { x, y } => {
                self.set_flag(self.register(x) > self.register(y));
                self.set_register(x, self.register(x).wrapping_sub(self.register(y)));
                ProgramCounter::Next
            },
            Instruction::ShiftRight { x } => {
                let before: u8 = self.register(x);
                assert(before & 1 == before % 2) by (bit_vector);
                self.set_flag(before & 1 == 1);
                let operand: u8 = self.register(x);
                assert(operand >> 1 == operand / 2) by (bit_vector);
                self.set_register(x, operand >> 1);
                ProgramCounter::Next
            },
            Instruction::SubtractReversed { x, y } => {
                self.set_flag(self.register(y) > self.register(x));
                self.set_register(x, self.register(y).wrapping_sub(self.register(x)));
                ProgramCounter::Next
            },
            Instruction::ShiftLeft { x } => {
                let before: u8 = self.register(x);
                assert(before >> 7 == 1 <==> before >= 128) by (bit_vector);
                self.set_flag(before >> 7 == 1);
                let operand: u8 = self.register(x);
                assert(operand << 1 == (operand * 2) % 256) by (bit_vector);
                self.set_register(x, operand << 1);
                ProgramCounter::Next
            },
            Instruction::SkipIfRegistersNotEqual { x, y } => ProgramCounter::skip_if(
                self.register(x) != self.register(y),
            ),
            Instruction::LoadIndex { addr } => {
                self.i = addr;
                ProgramCounter::Next
            },
            Instruction::JumpOffset { addr } => ProgramCounter::Jump(
                addr + self.register(0) as u16,
            ),
            Instruction::Random { x, mask } => {
                self.set_register(x, mask & random);
                ProgramCounter::Next
            },
            Instruction::Draw { x, y, rows } => {
                match self.draw_sprite(x, y, rows) {
                    Ok(collision) => {
                        self.set_flag(collision);
                        ProgramCounter::Next
                    },
                    Err(e) => {
                        return Err(e);
                    },
                }
            },
            Instruction::SkipIfKey { x } => {
                match self.key_in_register(x) {
                    Ok(down) => ProgramCounter::skip_if(down),
                    Err(e) => {
                        return Err(e);
                    },
                }
            },
            Instruction::SkipIfNotKey { x } => {
                match self.key_in_register(x) {
                    Ok(down) => ProgramCounter::skip_if(!down),
                    Err(e) => {
                        return Err(e);
                    },
                }
            },
            Instruction::ReadDelay { x } => {
                self.set_register(x, self.delay_timer);
                ProgramCounter::Next
            },
            Instruction::WaitKey { x } => {
                self.waiting_key = true;
                ProgramCounter::Suspend
            },
            Instruction::SetDelay { x } => {
                self.delay_timer = self.register(x);
                ProgramCounter::Next
            },
            Instruction::SetSound { x } => {
                self.sound_timer = self.register(x);
                ProgramCounter::Next
            },
            Instruction::AddIndex { x } => {
                self.i = self.i.saturating_add(self.register(x) as u16);
                ProgramCounter::Next
            },
            Instruction::Glyph { x } => {
                self.i = (self.register(x) as u16) * 5;
                ProgramCounter::Next
            },
            Instruction::StoreDecimal { x } => {
                match self.store_decimal(x) {
                    Ok(()) => ProgramCounter::Next,
                    Err(e) => {
                        return Err(e);
                    },
                }
            },
            Instruction::StoreRegisters { x } => {
                match self.store_registers(x) {
                    Ok(()) => ProgramCounter::Next,
                    Err(e) => {
                        return Err(e);
                    },
                }
            },
            Instruction::LoadRegisters { x } => {
                match self.load_registers(x) {
                    Ok(()) => ProgramCounter::Next,
                    Err(e) => {
                        return Err(e);
                    },
                }
            },
        };

        match to {
            ProgramCounter::Next => self.pc = (self.pc + 2) % MEMORY_SIZE,
            ProgramCounter::Skip => self.pc = (self.pc + 4) % MEMORY_SIZE,
            ProgramCounter::Jump(addr) => self.pc = (addr as usize) % MEMORY_SIZE,
            ProgramCounter::Suspend => {},
        };

        Ok(())
    }

    /// The program counter.
    pub fn pc(&self) -> (pc: usize)
        ensures
            pc == self@.pc,
    {
        self.pc
    }

    /// The number of return addresses on the call stack.
    pub fn stack_depth(&self) -> (depth: usize)
        ensures
            depth == self@.sp,
    {
        self.sp
    }

    /// The index register `I`.
    pub fn index(&self) -> (i: u16)
        ensures
            i == self@.i,
    {
        self.i
    }

    /// The byte of memory at `addr`.
    pub fn memory_at(&self, addr: usize) -> (byte: u8)
        requires
            addr < 4096,
        ensures
            byte == self@.memory[addr as int],
    {
        self.memory[addr]
    }

    /// The delay timer.
    pub fn delay_timer(&self) -> (value: u8)
        ensures
            value == self@.delay_timer,
    {
        self.delay_timer
    }

    /// The sound timer.
    pub fn sound_timer(&self) -> (value: u8)
        ensures
            value == self@.sound_timer,
    {
        self.sound_timer
    }

    /// Whether the machine is suspended until a key is pressed.
    pub fn is_waiting_for_key(&self) -> (waiting: bool)
        ensures
            waiting == self@.waiting_key,
    {
        self.waiting_key
    }

    /// Whether key `index` is down.
    pub fn is_key_down(&self, index: usize) -> (down: bool)
        requires
            index < 16,
        ensures
            down == self@.keypad[index as int],
    {
        self.keypad[index]
    }

    /// The display, for presentation.
    pub fn display(&self) -> (display: &Display)
        ensures
            display@ == self@.display,
    {
        &self.display
    }

    /// The value of register `V[x]`.
    pub fn register(&self, x: usize) -> (value: u8)
        requires
            x < 16,
        ensures
            value == self@.reg(x),
    {
        self.v[x]
    }

    /// Sets register `V[x]` to `value`.
    fn set_register(&mut self, x: usize, value: u8)
        requires
            x < 16,
        ensures
            final(self)@ == old(self)@.with_reg(x, value),
    {
        self.v[x] = value;
    }

    /// Sets the flag register `V[F]` to 1 if `flag` holds and to 0 if not.
    fn set_flag(&mut self, flag: bool)
        ensures
            final(self)@ == old(self)@.with_flag(flag),
    {
        self.v[0xF] = if flag {
            1
        } else {
            0
        };
    }

    /// Pushes the address of the instruction after the one at the program
    /// counter, unless the stack is full.
    fn push_return_address(&mut self) -> (res: Result<(), StepError>)
        requires
            old(self)@.wf(),
        ensures
            old(self)@.sp < 16 ==> res == Ok::<(), StepError>(()) && final(self)@ == (MachineState {
                stack: old(self)@.stack.update(old(self)@.sp, old(self)@.return_address()),
                sp: old(self)@.sp + 1,
                ..old(self)@
            }),
            old(self)@.sp == 16 ==> res == Err::<(), StepError>(StepError::StackOverflow)
                && final(self)@ == old(self)@,
    {
        if self.sp == STACK_DEPTH {
            return Err(StepError::StackOverflow);
        }
        self.stack[self.sp] = ((self.pc + 2) % MEMORY_SIZE) as u16;
        self.sp += 1;
        Ok(())
    }

    /// Pops the return address on top of the stack, unless the stack is
    /// empty.
    fn pop_return_address(&mut self) -> (res: Result<u16, StepError>)
        requires
            old(self)@.wf(),
        ensures
            old(self)@.sp > 0 ==> res == Ok::<u16, StepError>(
                old(self)@.stack[old(self)@.sp - 1],
            ) && final(self)@ == (MachineState { sp: old(self)@.sp - 1, ..old(self)@ }),
            old(self)@.sp == 0 ==> res == Err::<u16, StepError>(StepError::StackUnderflow)
                && final(self)@ == old(self)@,
    {
        if self.sp == 0 {
            return Err(StepError::StackUnderflow);
        }
        self.sp -= 1;
        Ok(self.stack[self.sp])
    }

    /// Whether the key whose index is in `V[x]` is down, unless that value
    /// is no key index.
    fn key_in_register(&self, x: usize) -> (res: Result<bool, StepError>)
        requires
            self@.wf(),
            x < 16,
        ensures
            self@.reg(x) < 16 ==> res == Ok::<bool, StepError>(self@.keypad[self@.reg(x) as int]),
            self@.reg(x) >= 16 ==> res == Err::<bool, StepError>(StepError::KeyOutOfRange),
    {
        let key: u8 = self.v[x];
        if key >= 16 {
            return Err(StepError::KeyOutOfRange);
        }
        Ok(self.keypad[key as usize])
    }

    /// Draws the `rows` bytes at the index register as a sprite at column
    /// `V[x]`, row `V[y]`, and returns whether it collided, unless the bytes
    /// reach past the end of memory.
    fn draw_sprite(&mut self, x: usize, y: usize, rows: u8) -> (res: Result<bool, StepError>)
        requires
            old(self)@.wf(),
            x < 16,
            y < 16,
        ensures
            old(self)@.i + rows <= 4096 ==> res == Ok::<bool, StepError>(
                crate::display::sprite_collides(
                    old(self)@.display,
                    old(self)@.reg(x) as int,
                    old(self)@.reg(y) as int,
                    old(self)@.sprite(rows as int),
                ),
            ) && final(self)@ == (MachineState {
                display: crate::display::draw_sprite(
                    old(self)@.display,
                    old(self)@.reg(x) as int,
                    old(self)@.reg(y) as int,
                    old(self)@.sprite(rows as int),
                ),
                ..old(self)@
            }),
            old(self)@.i + rows > 4096 ==> res == Err::<bool, StepError>(
                StepError::AddressOutOfBounds,
            ) && final(self)@ == old(self)@,
    {
        let start: usize = self.i as usize;
        let count: usize = rows as usize;
        if start + count > MEMORY_SIZE {
            return Err(StepError::AddressOutOfBounds);
        }
        let collision: bool = self.display.draw(
            self.v[x] as usize,
            self.v[y] as usize,
            &self.memory[start..start + count],
        );
        Ok(collision)
    }

    /// Stores the hundreds, tens and units of `V[x]` at the index register
    /// and the two addresses after it, unless they reach past the end of
    /// memory.
    fn store_decimal(&mut self, x: usize) -> (res: Result<(), StepError>)
        requires
            old(self)@.wf(),
            x < 16,
        ensures
            res == old(self)@.result_of(Instruction::StoreDecimal { x }),
            res is Ok ==> final(self)@ == old(self)@.effect(Instruction::StoreDecimal { x }, 0),
            res is Err ==> final(self)@ == old(self)@,
    {
        let start: usize = self.i as usize;
        if start + 2 >= MEMORY_SIZE {
            return Err(StepError::AddressOutOfBounds);
        }
        self.memory[start] = self.v[x] / 100;
        self.memory[start + 1] = (self.v[x] % 100) / 10;
        self.memory[start + 2] = self.v[x] % 10;
        Ok(())
    }

    /// Stores `V[0]` to `V[x]` at the index register and the addresses after
    /// it, unless they reach past the end of memory.
    fn store_registers(&mut self, x: usize) -> (res: Result<(), StepError>)
        requires
            old(self)@.wf(),
            x < 16,
        ensures
            res == old(self)@.result_of(Instruction::StoreRegisters { x }),
            res is Ok ==> final(self)@ == old(self)@.effect(Instruction::StoreRegisters { x }, 0),
            res is Err ==> final(self)@ == old(self)@,
    {
        let start: usize = self.i as usize;
        if start + x >= MEMORY_SIZE {
            return Err(StepError::AddressOutOfBounds);
        }
        let mut k: usize = 0;
        while k <= x
            invariant
                k <= x + 1,
                x < 16,
                start + x < 4096,
                forall|a: int|
                    0 <= a < 4096 ==> self.memory[a] == (if start <= a < start + k {
                        self.v[a - start]
                    } else {
                        old(self).memory[a]
                    }),
                self.v == old(self).v,
                self.i == old(self).i,
                self.pc == old(self).pc,
                self.stack == old(self).stack,
                self.sp == old(self).sp,
                self.delay_timer == old(self).delay_timer,
                self.sound_timer == old(self).sound_timer,
                self.display == old(self).display,
                self.keypad == old(self).keypad,
                self.waiting_key == old(self).waiting_key,
            decreases x + 1 - k,
        {
            self.memory[start + k] = self.v[k];
            k += 1;
        }
        Ok(())
    }

    /// Loads `V[0]` to `V[x]` from the index register and the addresses
    /// after it, unless they reach past the end of memory.
    fn load_registers(&mut self, x: usize) -> (res: Result<(), StepError>)
        requires
            old(self)@.wf(),
            x < 16,
        ensures
            res == old(self)@.result_of(Instruction::LoadRegisters { x }),
            res is Ok ==> final(self)@ == old(self)@.effect(Instruction::LoadRegisters { x }, 0),
            res is Err ==> final(self)@ == old(self)@,
    {
        let start: usize = self.i as usize;
        if start + x >= MEMORY_SIZE {
            return Err(StepError::AddressOutOfBounds);
        }
        let mut k: usize = 0;
        while k <= x
            invariant
                k <= x + 1,
                x < 16,
                start + x < 4096,
                forall|r: int|
                    0 <= r < 16 ==> self.v[r] == (if r < k {
                        self.memory[start + r]
                    } else {
                        old(self).v[r]
                    }),
                self.memory == old(self).memory,
                self.i == old(self).i,
                self.pc == old(self).pc,
                self.stack == old(self).stack,
                self.sp == old(self).sp,
                self.delay_timer == old(self).delay_timer,
                self.sound_timer == old(self).sound_timer,
                self.display == old(self).display,
                self.keypad == old(self).keypad,
                self.waiting_key == old(self).waiting_key,
            decreases x + 1 - k,
        {
            self.v[k] = self.memory[start + k];
            k += 1;
        }
        Ok(())
    }
}

} // verus!
