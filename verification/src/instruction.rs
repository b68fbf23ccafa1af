//! The instruction set: how a 16-bit opcode splits into fields, and which
//! instruction each opcode denotes.
use vstd::prelude::*;

verus! {

/// The first (most significant) nibble of an opcode.
pub open spec fn nibble_a(opcode: u16) -> int {
    opcode as int / 0x1000
}

/// The second nibble of an opcode: the register selector `x`.
pub open spec fn nibble_x(opcode: u16) -> int {
    (opcode as int / 0x100) % 16
}

/// The third nibble of an opcode: the register selector `y`.
pub open spec fn nibble_y(opcode: u16) -> int {
    (opcode as int / 0x10) % 16
}

/// The last nibble of an opcode: the 4-bit immediate `n`.
pub open spec fn nibble_n(opcode: u16) -> int {
    opcode as int % 16
}

/// The low byte of an opcode: the 8-bit immediate `nn`.
pub open spec fn low_byte(opcode: u16) -> u8 {
    (opcode as int % 0x100) as u8
}

/// The low 12 bits of an opcode: the address `nnn`.
pub open spec fn address(opcode: u16) -> int {
    opcode as int % 0x1000
}

/// The opcode made of two consecutive bytes, most significant first.
pub open spec fn opcode_of(high: u8, low: u8) -> u16 {
    (high as int * 0x100 + low as int) as u16
}

/// An instruction of the machine, with its operands. `x` and `y` select
/// registers.
#[derive(Debug, Clone, Copy, PartialEq, Eq, Structural)]
pub enum Instruction {
    /// `00E0`: unset every pixel.
    ClearScreen,
    /// `00EE`: return from a subroutine.
    Return,
    /// `1nnn`: continue at `addr`.
    Jump { addr: u16 },
    /// `2nnn`: call the subroutine at `addr`.
    Call { addr: u16 },
    /// `3xnn`: skip the next instruction if `V[x] == value`.
    SkipIfEqual { x: usize, value: u8 },
    /// `4xnn`: skip the next instruction if `V[x] != value`.
    SkipIfNotEqual { x: usize, value: u8 },
    /// `5xy0`: skip the next instruction if `V[x] == V[y]`.
    SkipIfRegistersEqual { x: usize, y: usize },
    /// `6xnn`: `V[x] = value`.
    Load { x: usize, value: u8 },
    /// `7xnn`: `V[x] = V[x] + value` modulo 256; no flag.
    Add { x: usize, value: u8 },
    /// `8xy0`: `V[x] = V[y]`.
    Move { x: usize, y: usize },
    /// `8xy1`: `V[x] = V[x] | V[y]`.
    Or { x: usize, y: usize },
    /// `8xy2`: `V[x] = V[x] & V[y]`.
    And { x: usize, y: usize },
    /// `8xy3`: `V[x] = V[x] ^ V[y]`.
    Xor { x: usize, y: usize },
    /// `8xy4`: `V[x] = V[x] + V[y]` modulo 256; `V[F]` is the carry.
    AddCarry { x: usize, y: usize },
    /// `8xy5`: `V[x] = V[x] - V[y]` modulo 256; `V[F]` is 1 iff `V[x] > V[y]`.
    Subtract { x: usize, y: usize },
    /// `8xy6`: `V[x]` shifted right by one; `V[F]` is the bit shifted out.
    ShiftRight { x: usize },
    /// `8xy7`: `V[x] = V[y] - V[x]` modulo 256; `V[F]` is 1 iff `V[y] > V[x]`.
    SubtractReversed { x: usize, y: usize },
    /// `8xyE`: `V[x]` shifted left by one; `V[F]` is the bit shifted out.
    ShiftLeft { x: usize },
    /// `9xy0`: skip the next instruction if `V[x] != V[y]`.
    SkipIfRegistersNotEqual { x: usize, y: usize },
    /// `Annn`: `I = addr`.
    LoadIndex { addr: u16 },
    /// `Bnnn`: continue at `addr + V[0]`.
    JumpOffset { addr: u16 },
    /// `Cxnn`: `V[x] = mask & r` for a random byte `r`.
    Random { x: usize, mask: u8 },
    /// `Dxyn`: draw the `rows` bytes at `I` as a sprite at column `V[x]`,
    /// row `V[y]`; `V[F]` is the collision flag.
    Draw { x: usize, y: usize, rows: u8 },
    /// `Ex9E`: skip the next instruction if key `V[x]` is down.
    SkipIfKey { x: usize },
    /// `ExA1`: skip the next instruction if key `V[x]` is up.
    SkipIfNotKey { x: usize },
    /// `Fx07`: `V[x] = delay timer`.
    ReadDelay { x: usize },
    /// `Fx0A`: suspend until a key is pressed, then store the key in `V[x]`.
    WaitKey { x: usize },
    /// `Fx15`: `delay timer = V[x]`.
    SetDelay { x: usize },
    /// `Fx18`: `sound timer = V[x]`.
    SetSound { x: usize },
    /// `Fx1E`: `I = I + V[x]`.
    AddIndex { x: usize },
    /// `Fx29`: `I` = address of the glyph for the digit `V[x]`.
    Glyph { x: usize },
    /// `Fx33`: store the decimal digits of `V[x]` at `I`, `I + 1`, `I + 2`.
    StoreDecimal { x: usize },
    /// `Fx55`: store `V[0]` to `V[x]` at `I` onwards.
    StoreRegisters { x: usize },
    /// `Fx65`: load `V[0]` to `V[x]` from `I` onwards.
    LoadRegisters { x: usize },
}

/// The instruction that an opcode denotes, if any. Within a family that is
/// selected by the first nibble, the remaining nibbles must match exactly
/// where the instruction fixes them.
pub open spec fn decode_spec(opcode: u16) -> Option<Instruction> {
    let a = nibble_a(opcode);
    let x = nibble_x(opcode) as usize;
    let y = nibble_y(opcode) as usize;
    let n = nibble_n(opcode) as u8;
    let nn = low_byte(opcode);
    let nnn = address(opcode) as u16;
    if opcode == 0x00E0 {
        Some(Instruction::ClearScreen)
    } else if opcode == 0x00EE {
        Some(Instruction::Return)
    } else if a == 0x1 {
        Some(Instruction::Jump { addr: nnn })
    } else if a == 0x2 {
        Some(Instruction::Call { addr: nnn })
    } else if a == 0x3 {
        Some(Instruction::SkipIfEqual { x, value: nn })
    } else if a == 0x4 {
        Some(Instruction::SkipIfNotEqual { x, value: nn })
    } else if a == 0x5 && n == 0x0 {
        Some(Instruction::SkipIfRegistersEqual { x, y })
    } else if a == 0x6 {
        Some(Instruction::Load { x, value: nn })
    } else if a == 0x7 {
        Some(Instruction::Add { x, value: nn })
    } else if a == 0x8 && n == 0x0 {
        Some(Instruction::Move { x, y })
    } else if a == 0x8 && n == 0x1 {
        Some(Instruction::Or { x, y })
    } else if a == 0x8 && n == 0x2 {
        Some(Instruction::And { x, y })
    } else if a == 0x8 && n == 0x3 {
        Some(Instruction::Xor { x, y })
    } else if a == 0x8 && n == 0x4 {
        Some(Instruction::AddCarry { x, y })
    } else if a == 0x8 && n == 0x5 {
        Some(Instruction::Subtract { x, y })
    } else if a == 0x8 && n == 0x6 {
        Some(Instruction::ShiftRight { x })
    } else if a == 0x8 && n == 0x7 {
        Some(Instruction::SubtractReversed { x, y })
    } else if a == 0x8 && n == 0xE {
        Some(Instruction::ShiftLeft { x })
    } else if a == 0x9 && n == 0x0 {
        Some(Instruction::SkipIfRegistersNotEqual { x, y })
    } else if a == 0xA {
        Some(Instruction::LoadIndex { addr: nnn })
    } else if a == 0xB {
        Some(Instruction::JumpOffset { addr: nnn })
    } else if a == 0xC {
        Some(Instruction::Random { x, mask: nn })
    } else if a == 0xD {
        Some(Instruction::Draw { x, y, rows: n })
    } else if a == 0xE && nn == 0x9E {
        Some(Instruction::SkipIfKey { x })
    } else if a == 0xE && nn == 0xA1 {
        Some(Instruction::SkipIfNotKey { x })
    } else if a == 0xF && nn == 0x07 {
        Some(Instruction::ReadDelay { x })
    } else if a == 0xF && nn == 0x0A {
        Some(Instruction::WaitKey { x })
    } else if a == 0xF && nn == 0x15 {
        Some(Instruction::SetDelay { x })
    } else if a == 0xF && nn == 0x18 {
        Some(Instruction::SetSound { x })
    } else if a == 0xF && nn == 0x1E {
        Some(Instruction::AddIndex { x })
    } else if a == 0xF && nn == 0x29 {
        Some(Instruction::Glyph { x })
    } else if a == 0xF && nn == 0x33 {
        Some(Instruction::StoreDecimal { x })
    } else if a == 0xF && nn == 0x55 {
        Some(Instruction::StoreRegisters { x })
    } else if a == 0xF && nn == 0x65 {
        Some(Instruction::LoadRegisters { x })
    } else {
        None
    }
}

impl Instruction {
    /// The operands are in range: register selectors and row counts are
    /// nibbles, addresses have 12 bits.
    pub open spec fn wf(self) -> bool {
        match self {
            Instruction::ClearScreen => true,
            Instruction::Return => true,
            Instruction::Jump { addr } => addr < 4096,
            Instruction::Call { addr } => addr < 4096,
            Instruction::SkipIfEqual { x, value } => x < 16,
            Instruction::SkipIfNotEqual { x, value } => x < 16,
            Instruction::SkipIfRegistersEqual { x, y } => x < 16 && y < 16,
            Instruction::Load { x, value } => x < 16,
            Instruction::Add { x, value } => x < 16,
            Instruction::Move { x, y } => x < 16 && y < 16,
            Instruction::Or { x, y } => x < 16 && y < 16,
            Instruction::And { x, y } => x < 16 && y < 16,
            Instruction::Xor { x, y } => x < 16 && y < 16,
            Instruction::AddCarry { x, y } => x < 16 && y < 16,
            Instruction::Subtract { x, y } => x < 16 && y < 16,
            Instruction::ShiftRight { x } => x < 16,
            Instruction::SubtractReversed { x, y } => x < 16 && y < 16,
            Instruction::ShiftLeft { x } => x < 16,
            Instruction::SkipIfRegistersNotEqual { x, y } => x < 16 && y < 16,
            Instruction::LoadIndex { addr } => addr < 4096,
            Instruction::JumpOffset { addr } => addr < 4096,
            Instruction::Random { x, mask } => x < 16,
            Instruction::Draw { x, y, rows } => x < 16 && y < 16 && rows < 16,
            Instruction::SkipIfKey { x } => x < 16,
            Instruction::SkipIfNotKey { x } => x < 16,
            Instruction::ReadDelay { x } => x < 16,
            Instruction::WaitKey { x } => x < 16,
            Instruction::SetDelay { x } => x < 16,
            Instruction::SetSound { x } => x < 16,
            Instruction::AddIndex { x } => x < 16,
            Instruction::Glyph { x } => x < 16,
            Instruction::StoreDecimal { x } => x < 16,
            Instruction::StoreRegisters { x } => x < 16,
            Instruction::LoadRegisters { x } => x < 16,
        }
    }
}

/// Every opcode that denotes an instruction denotes one with operands in
/// range.
pub proof fn lemma_decode_wf(opcode: u16)
    ensures
        decode_spec(opcode) matches Some(instr) ==> instr.wf(),
{
}

/// The register selector `x` of an opcode: its second nibble.
pub fn get_x(opcode: u16) -> (x: usize)
    ensures
        x == nibble_x(opcode),
        x < 16,
{
    assert((opcode & 0x0F00) >> 8 == (opcode / 0x100) % 16) by (bit_vector);
    ((opcode & 0x0F00) >> 8) as usize
}

/// The register selector `y` of an opcode: its third nibble.
pub fn get_y(opcode: u16) -> (y: usize)
    ensures
        y == nibble_y(opcode),
        y < 16,
{
    assert((opcode & 0x0F0) >> 4 == (opcode / 0x10) % 16) by (bit_vector);
    ((opcode & 0x0F0) >> 4) as usize
}

/// The 4-bit immediate of an opcode: its last nibble.
pub fn get_n(opcode: u16) -> (n: u8)
    ensures
        n == nibble_n(opcode),
        n < 16,
{
    assert(opcode & 0x000F == opcode % 16) by (bit_vector);
    (opcode & 0x000F) as u8
}

/// The 8-bit immediate of an opcode: its low byte.
pub fn get_nn(opcode: u16) -> (nn: u8)
    ensures
        nn == low_byte(opcode),
{
    assert(opcode & 0x00FF == opcode % 0x100) by (bit_vector);
    (opcode & 0x00FF) as u8
}

/// The address of an opcode: its low 12 bits.
pub fn get_nnn(opcode: u16) -> (nnn: u16)
    ensures
        nnn == address(opcode),
        nnn < 4096,
{
    assert(opcode & 0x0FFF == opcode % 0x1000) by (bit_vector);
    opcode & 0x0FFF
}

/// The instruction that `opcode` denotes, or `None` if it denotes none.
pub fn decode(opcode: u16) -> (res: Option<Instruction>)
    ensures
        res == decode_spec(opcode),
        res matches Some(instr) ==> instr.wf(),
{
    assert(0xf & opcode >> 12 == opcode / 0x1000) by (bit_vector);
    let (a, x, y, n): (u16, usize, usize, u8) = (
        0xf & opcode >> 12,
        get_x(opcode),
        get_y(opcode),
        get_n(opcode),
    );
    let nn: u8 = get_nn(opcode);
    let nnn: u16 = get_nnn(opcode);
    match (a, x, y, n) {
        (0x0, 0x0, 0xE, 0x0) => Some(Instruction::ClearScreen),
        (0x0, 0x0, 0xE, 0xE) => Some(Instruction::Return),
        (0x1, _, _, _) => Some(Instruction::Jump { addr: nnn }),
        (0x2, _, _, _) => Some(Instruction::Call { addr: nnn }),
        (0x3, _, _, _) => Some(Instruction::SkipIfEqual { x, value: nn }),
        (0x4, _, _, _) => Some(Instruction::SkipIfNotEqual { x, value: nn }),
        (0x5, _, _, 0x0) => Some(Instruction::SkipIfRegistersEqual { x, y }),
        (0x6, _, _, _) => Some(Instruction::Load { x, value: nn }),
        (0x7, _, _, _) => Some(Instruction::Add { x, value: nn }),
        (0x8, _, _, 0x0) => Some(Instruction::Move { x, y }),
        (0x8, _, _, 0x1) => Some(Instruction::Or { x, y }),
        (0x8, _, _, 0x2) => Some(Instruction::And { x, y }),
        (0x8, _, _, 0x3) => Some(Instruction::Xor { x, y }),
        (0x8, _, _, 0x4) => Some(Instruction::AddCarry { x, y }),
        (0x8, _, _, 0x5) => Some(Instruction::Subtract { x, y }),
        (0x8, _, _, 0x6) => Some(Instruction::ShiftRight { x }),
        (0x8, _, _, 0x7) => Some(Instruction::SubtractReversed { x, y }),
        (0x8, _, _, 0xE) => Some(Instruction::ShiftLeft { x }),
        (0x9, _, _, 0x0) => Some(Instruction::SkipIfRegistersNotEqual { x, y }),
        (0xA, _, _, _) => Some(Instruction::LoadIndex { addr: nnn }),
        (0xB, _, _, _) => Some(Instruction::JumpOffset { addr: nnn }),
        (0xC, _, _, _) => Some(Instruction::Random { x, mask: nn }),
        (0xD, _, _, _) => Some(Instruction::Draw { x, y, rows: n }),
        (0xE, _, 0x9, 0xE) => Some(Instruction::SkipIfKey { x }),
        (0xE, _, 0xA, 0x1) => Some(Instruction::SkipIfNotKey { x }),
        (0xF, _, 0x0, 0x7) => Some(Instruction::ReadDelay { x }),
        (0xF, _, 0x0, 0xA) => Some(Instruction::WaitKey { x }),
        (0xF, _, 0x1, 0x5) => Some(Instruction::SetDelay { x }),
        (0xF, _, 0x1, 0x8) => Some(Instruction::SetSound { x }),
        (0xF, _, 0x1, 0xE) => Some(Instruction::AddIndex { x }),
        (0xF, _, 0x2, 0x9) => Some(Instruction::Glyph { x }),
        (0xF, _, 0x3, 0x3) => Some(Instruction::StoreDecimal { x }),
        (0xF, _, 0x5, 0x5) => Some(Instruction::StoreRegisters { x }),
        (0xF, _, 0x6, 0x5) => Some(Instruction::LoadRegisters { x }),
        _ => None,
    }
}

} // verus!
