//! The instructions of the machine and the opcodes that stand for them.

use crate::io::MemoryError;
use vstd::prelude::*;

verus! {

/// An instruction that decides where the engine goes on. `x` and `y` name
/// registers, `addr` is an address and `kk` a byte.
#[derive(Debug, Clone, Copy, PartialEq, Eq, Structural)]
pub enum Flow {
    /// `00EE`: go back to the address on top of the call stack.
    Return,
    /// `0NNN` and `1NNN`: go to `addr`.
    Jump { addr: u16 },
    /// `2NNN`: remember where to go on, then go to `addr`.
    Call { addr: u16 },
    /// `BNNN`: go to `addr + V[0]`.
    JumpOffset { addr: u16 },
    /// `3XKK`: skip the next instruction if `V[x] == kk`.
    SkipIfEqual { x: u8, kk: u8 },
    /// `4XKK`: skip the next instruction if `V[x] != kk`.
    SkipIfNotEqual { x: u8, kk: u8 },
    /// `5XY_`: skip the next instruction if `V[x] == V[y]`.
    SkipIfSame { x: u8, y: u8 },
    /// `9XY_`: skip the next instruction if `V[x] != V[y]`.
    SkipIfDifferent { x: u8, y: u8 },
    /// `EX9E`: skip the next instruction if key `V[x]` is pressed.
    SkipIfKey { x: u8 },
    /// `EXA1`: skip the next instruction if key `V[x]` is not pressed.
    SkipIfNoKey { x: u8 },
}

/// An instruction that gives the register `V[x]` a new value and leaves the
/// flag register alone.
#[derive(Debug, Clone, Copy, PartialEq, Eq, Structural)]
pub enum Assign {
    /// `6XKK`: `V[x] = kk`.
    Load { x: u8, kk: u8 },
    /// `7XKK`: `V[x] = V[x] + kk`, wrapping, with no flag.
    AddByte { x: u8, kk: u8 },
    /// `8XY0`: `V[x] = V[y]`.
    Move { x: u8, y: u8 },
    /// `8XY1`: `V[x] = V[x] | V[y]`.
    Or { x: u8, y: u8 },
    /// `8XY2`: `V[x] = V[x] & V[y]`.
    And { x: u8, y: u8 },
    /// `8XY3`: `V[x] = V[x] ^ V[y]`.
    Xor { x: u8, y: u8 },
    /// `CXKK`: `V[x] = random byte & kk`.
    Random { x: u8, kk: u8 },
    /// `FX07`: `V[x] = delay timer`.
    ReadDelay { x: u8 },
}

/// An instruction that computes `V[x]` and a flag, which goes to `VF`.
#[derive(Debug, Clone, Copy, PartialEq, Eq, Structural)]
pub enum Arithmetic {
    /// `8XY4`: `V[x] = V[x] + V[y]`, wrapping; `VF` is the carry.
    Add { x: u8, y: u8 },
    /// `8XY5`: `V[x] = V[x] - V[y]`, wrapping; `VF` is 1 unless it borrowed.
    Subtract { x: u8, y: u8 },
    /// `8XY6`: `V[x] = V[x] >> 1`; `VF` is the bit shifted out.
    ShiftRight { x: u8 },
    /// `8XY7`: `V[x] = V[y] - V[x]`, wrapping; `VF` is 1 unless it borrowed.
    SubtractFrom { x: u8, y: u8 },
    /// `8XYE`: `V[x] = V[x] << 1`; `VF` is the bit shifted out.
    ShiftLeft { x: u8 },
}

/// An instruction that sets the index register `I` or moves bytes between
/// the registers and the memory at `I`.
#[derive(Debug, Clone, Copy, PartialEq, Eq, Structural)]
pub enum Transfer {
    /// `ANNN`: `I = addr`.
    LoadIndex { addr: u16 },
    /// `FX1E`: `I = I + V[x]`, wrapping.
    AddIndex { x: u8 },
    /// `FX29`: `I` = where the glyph for the digit `V[x]` starts.
    Glyph { x: u8 },
    /// `FX33`: the decimal digits of `V[x]` go to `memory[I..I + 3]`.
    StoreDecimal { x: u8 },
    /// `FX55`: `V[0..=x]` goes to `memory[I..]`.
    StoreRegisters { x: u8 },
    /// `FX65`: `memory[I..]` goes to `V[0..=x]`.
    LoadRegisters { x: u8 },
}

/// An instruction that works on the screen, waits for the keypad or sets a
/// timer.
#[derive(Debug, Clone, Copy, PartialEq, Eq, Structural)]
pub enum Device {
    /// `00E0`: turn every pixel off.
    ClearScreen,
    /// `DXYN`: draw the `n` rows at `memory[I..]` at (`V[x]`, `V[y]`);
    /// `VF` says whether a pixel went off.
    Draw { x: u8, y: u8, n: u8 },
    /// `FX0A`: wait for a key press and put the key into `V[x]`.
    WaitKey { x: u8 },
    /// `FX15`: `delay timer = V[x]`.
    SetDelay { x: u8 },
    /// `FX18`: `sound timer = V[x]`.
    SetSound { x: u8 },
}

/// One instruction of the machine with its operands, by what it works on.
#[derive(Debug, Clone, Copy, PartialEq, Eq, Structural)]
pub enum Instruction {
    Flow(Flow),
    Assign(Assign),
    Arithmetic(Arithmetic),
    Transfer(Transfer),
    Device(Device),
}

/// The highest four bits of an opcode, which select its family.
pub open spec fn family(opcode: u16) -> u16 {
    opcode / 0x1000
}

/// The `X` of an opcode: its second-highest four bits.
pub open spec fn operand_x(opcode: u16) -> u8 {
    ((opcode / 0x100) % 0x10) as u8
}

/// The `Y` of an opcode: its second-lowest four bits.
pub open spec fn operand_y(opcode: u16) -> u8 {
    ((opcode / 0x10) % 0x10) as u8
}

/// The `N` of an opcode: its lowest four bits.
pub open spec fn operand_n(opcode: u16) -> u8 {
    (opcode % 0x10) as u8
}

/// The `KK` of an opcode: its low byte.
pub open spec fn operand_kk(opcode: u16) -> u8 {
    (opcode % 0x100) as u8
}

/// The `NNN` of an opcode: its lowest twelve bits.
pub open spec fn operand_nnn(opcode: u16) -> u16 {
    opcode % 0x1000
}

/// The instruction that an opcode of the family `0___` stands for. Of the
/// opcodes `00__` only `00E0` and `00EE` are instructions; from `0100` on the
/// opcode is a jump.
pub open spec fn decoded_system(opcode: u16) -> Option<Instruction> {
    if opcode == 0x00E0 {
        Some(Instruction::Device(Device::ClearScreen))
    } else if opcode == 0x00EE {
        Some(Instruction::Flow(Flow::Return))
    } else if opcode < 0x0100 {
        None
    } else {
        Some(Instruction::Flow(Flow::Jump { addr: operand_nnn(opcode) }))
    }
}

/// The instruction that an opcode of the family `8XY_` stands for.
pub open spec fn decoded_register(opcode: u16) -> Option<Instruction> {
    let x = operand_x(opcode);
    let y = operand_y(opcode);
    let n = operand_n(opcode);
    if n == 0x0 {
        Some(Instruction::Assign(Assign::Move { x, y }))
    } else if n == 0x1 {
        Some(Instruction::Assign(Assign::Or { x, y }))
    } else if n == 0x2 {
        Some(Instruction::Assign(Assign::And { x, y }))
    } else if n == 0x3 {
        Some(Instruction::Assign(Assign::Xor { x, y }))
    } else if n == 0x4 {
        Some(Instruction::Arithmetic(Arithmetic::Add { x, y }))
    } else if n == 0x5 {
        Some(Instruction::Arithmetic(Arithmetic::Subtract { x, y }))
    } else if n == 0x6 {
        Some(Instruction::Arithmetic(Arithmetic::ShiftRight { x }))
    } else if n == 0x7 {
        Some(Instruction::Arithmetic(Arithmetic::SubtractFrom { x, y }))
    } else if n == 0xE {
        Some(Instruction::Arithmetic(Arithmetic::ShiftLeft { x }))
    } else {
        None
    }
}

/// The instruction that an opcode of the family `EX__` stands for.
pub open spec fn decoded_key(opcode: u16) -> Option<Instruction> {
    let x = operand_x(opcode);
    let kk = operand_kk(opcode);
    if kk == 0x9E {
        Some(Instruction::Flow(Flow::SkipIfKey { x }))
    } else if kk == 0xA1 {
        Some(Instruction::Flow(Flow::SkipIfNoKey { x }))
    } else {
        None
    }
}

/// The instruction that an opcode of the family `FX__` stands for.
pub open spec fn decoded_machine(opcode: u16) -> Option<Instruction> {
    let x = operand_x(opcode);
    let kk = operand_kk(opcode);
    if kk == 0x07 {
        Some(Instruction::Assign(Assign::ReadDelay { x }))
    } else if kk == 0x0A {
        Some(Instruction::Device(Device::WaitKey { x }))
    } else if kk == 0x15 {
        Some(Instruction::Device(Device::SetDelay { x }))
    } else if kk == 0x18 {
        Some(Instruction::Device(Device::SetSound { x }))
    } else if kk == 0x1E {
        Some(Instruction::Transfer(Transfer::AddIndex { x }))
    } else if kk == 0x29 {
        Some(Instruction::Transfer(Transfer::Glyph { x }))
    } else if kk == 0x33 {
        Some(Instruction::Transfer(Transfer::StoreDecimal { x }))
    } else if kk == 0x55 {
        Some(Instruction::Transfer(Transfer::StoreRegisters { x }))
    } else if kk == 0x65 {
        Some(Instruction::Transfer(Transfer::LoadRegisters { x }))
    } else {
        None
    }
}

/// The instruction that an opcode stands for, or `None` where it stands for
/// none. The lowest four bits of `5XY_` and `9XY_` are not looked at.
pub open spec fn decoded(opcode: u16) -> Option<Instruction> {
    let kind = family(opcode);
    let x = operand_x(opcode);
    let y = operand_y(opcode);
    let n = operand_n(opcode);
    let kk = operand_kk(opcode);
    let addr = operand_nnn(opcode);
    if kind == 0x0 {
        decoded_system(opcode)
    } else if kind == 0x1 {
        Some(Instruction::Flow(Flow::Jump { addr }))
    } else if kind == 0x2 {
        Some(Instruction::Flow(Flow::Call { addr }))
    } else if kind == 0x3 {
        Some(Instruction::Flow(Flow::SkipIfEqual { x, kk }))
    } else if kind == 0x4 {
        Some(Instruction::Flow(Flow::SkipIfNotEqual { x, kk }))
    } else if kind == 0x5 {
        Some(Instruction::Flow(Flow::SkipIfSame { x, y }))
    } else if kind == 0x6 {
        Some(Instruction::Assign(Assign::Load { x, kk }))
    } else if kind == 0x7 {
        Some(Instruction::Assign(Assign::AddByte { x, kk }))
    } else if kind == 0x8 {
        decoded_register(opcode)
    } else if kind == 0x9 {
        Some(Instruction::Flow(Flow::SkipIfDifferent { x, y }))
    } else if kind == 0xA {
        Some(Instruction::Transfer(Transfer::LoadIndex { addr }))
    } else if kind == 0xB {
        Some(Instruction::Flow(Flow::JumpOffset { addr }))
    } else if kind == 0xC {
        Some(Instruction::Assign(Assign::Random { x, kk }))
    } else if kind == 0xD {
        Some(Instruction::Device(Device::Draw { x, y, n }))
    } else if kind == 0xE {
        decoded_key(opcode)
    } else {
        decoded_machine(opcode)
    }
}

/// The highest register that `instruction` names, or `None` where it names
/// none. An instruction that moves `V[0..=x]` as a block names `x`.
pub open spec fn highest_register(instruction: Instruction) -> Option<u8> {
    match instruction {
        Instruction::Flow(flow) => match flow {
            Flow::Return | Flow::Jump { .. } | Flow::Call { .. } => None,
            Flow::JumpOffset { .. } => Some(0u8),
            Flow::SkipIfEqual { x, .. }
            | Flow::SkipIfNotEqual { x, .. }
            | Flow::SkipIfKey { x }
            | Flow::SkipIfNoKey { x } => Some(x),
            Flow::SkipIfSame { x, y } | Flow::SkipIfDifferent { x, y } => Some(higher(x, y)),
        },
        Instruction::Assign(assign) => match assign {
            Assign::Load { x, .. }
            | Assign::AddByte { x, .. }
            | Assign::Random { x, .. }
            | Assign::ReadDelay { x } => Some(x),
            Assign::Move { x, y }
            | Assign::Or { x, y }
            | Assign::And { x, y }
            | Assign::Xor { x, y } => Some(higher(x, y)),
        },
        Instruction::Arithmetic(arithmetic) => match arithmetic {
            Arithmetic::Add { x, y }
            | Arithmetic::Subtract { x, y }
            | Arithmetic::SubtractFrom { x, y } => Some(higher(x, y)),
            Arithmetic::ShiftRight { x } | Arithmetic::ShiftLeft { x } => Some(x),
        },
        Instruction::Transfer(transfer) => match transfer {
            Transfer::LoadIndex { .. } => None,
            Transfer::AddIndex { x }
            | Transfer::Glyph { x }
            | Transfer::StoreDecimal { x }
            | Transfer::StoreRegisters { x }
            | Transfer::LoadRegisters { x } => Some(x),
        },
        Instruction::Device(device) => match device {
            Device::ClearScreen => None,
            Device::Draw { x, y, .. } => Some(higher(x, y)),
            Device::WaitKey { x } | Device::SetDelay { x } | Device::SetSound { x } => Some(x),
        },
    }
}

/// The higher of two register numbers.
pub open spec fn higher(x: u8, y: u8) -> u8 {
    if x >= y {
        x
    } else {
        y
    }
}

/// Whether `instruction` moves the registers `V[0..=x]` as a block.
pub open spec fn moves_block(instruction: Instruction) -> bool {
    instruction matches Instruction::Transfer(transfer) && (transfer is StoreRegisters
        || transfer is LoadRegisters)
}

/// Why `instruction` cannot reach its registers, if it cannot: a register
/// beyond `VF` is `OutOfBounds`. An instruction that moves `V[0..=x]` as a
/// block counts `x + 1` registers, and a count that no byte holds is an
/// `InvalidRange`.
pub open spec fn register_fault(instruction: Instruction) -> Option<MemoryError> {
    match highest_register(instruction) {
        Some(highest) => if moves_block(instruction) && highest == 0xFF {
            Some(MemoryError::InvalidRange)
        } else if highest >= 16 {
            Some(MemoryError::OutOfBounds)
        } else {
            None
        },
        None => None,
    }
}

/// An instruction that comes out of an opcode reaches its registers: the
/// four bits of an `X` or a `Y` name one of `V0` to `VF`.
pub proof fn lemma_decoded_reaches_registers(opcode: u16)
    ensures
        decoded(opcode) matches Some(instruction) ==> register_fault(instruction) is None,
{
}

impl Instruction {
    /// The highest register that the instruction names, if it names one.
    fn highest_register(&self) -> (highest: Option<u8>)
        ensures
            highest == highest_register(*self),
    {
        match *self {
            Instruction::Flow(flow) => match flow {
                Flow::Return | Flow::Jump { .. } | Flow::Call { .. } => None,
                Flow::JumpOffset { .. } => Some(0),
                Flow::SkipIfEqual { x, .. }
                | Flow::SkipIfNotEqual { x, .. }
                | Flow::SkipIfKey { x }
                | Flow::SkipIfNoKey { x } => Some(x),
                Flow::SkipIfSame { x, y } | Flow::SkipIfDifferent { x, y } => Some(
                    if x >= y {
                        x
                    } else {
                        y
                    },
                ),
            },
            Instruction::Assign(assign) => match assign {
                Assign::Load { x, .. }
                | Assign::AddByte { x, .. }
                | Assign::Random { x, .. }
                | Assign::ReadDelay { x } => Some(x),
                Assign::Move { x, y }
                | Assign::Or { x, y }
                | Assign::And { x, y }
                | Assign::Xor { x, y } => Some(
                    if x >= y {
                        x
                    } else {
                        y
                    },
                ),
            },
            Instruction::Arithmetic(arithmetic) => match arithmetic {
                Arithmetic::Add { x, y }
                | Arithmetic::Subtract { x, y }
                | Arithmetic::SubtractFrom { x, y } => Some(
                    if x >= y {
                        x
                    } else {
                        y
                    },
                ),
                Arithmetic::ShiftRight { x } | Arithmetic::ShiftLeft { x } => Some(x),
            },
            Instruction::Transfer(transfer) => match transfer {
                Transfer::LoadIndex { .. } => None,
                Transfer::AddIndex { x }
                | Transfer::Glyph { x }
                | Transfer::StoreDecimal { x }
                | Transfer::StoreRegisters { x }
                | Transfer::LoadRegisters { x } => Some(x),
            },
            Instruction::Device(device) => match device {
                Device::ClearScreen => None,
                Device::Draw { x, y, .. } => Some(
                    if x >= y {
                        x
                    } else {
                        y
                    },
                ),
                Device::WaitKey { x } | Device::SetDelay { x } | Device::SetSound { x } => Some(x),
            },
        }
    }

    /// Checks that the instruction can reach the registers it names; returns
    /// the fault where it cannot.
    pub fn check_registers(&self) -> (fault: Option<MemoryError>)
        ensures
            fault == register_fault(*self),
    {
        let block: bool = match *self {
            Instruction::Transfer(Transfer::StoreRegisters { .. })
            | Instruction::Transfer(Transfer::LoadRegisters { .. }) => true,
            _ => false,
        };
        match self.highest_register() {
            Some(highest) => if block && highest == 0xFF {
                Some(MemoryError::InvalidRange)
            } else if highest >= 16 {
                Some(MemoryError::OutOfBounds)
            } else {
                None
            },
            None => None,
        }
    }
}

/// Splits an opcode into its instruction and operands. Returns `None` for
/// an opcode that stands for no instruction. An instruction that comes out
/// of an opcode names registers from `V0` to `VF` only.
pub fn decode(opcode: u16) -> (instruction: Option<Instruction>)
    ensures
        instruction == decoded(opcode),
        instruction matches Some(decoded) ==> register_fault(decoded) is None,
{
    let kind: u16 = opcode >> 12;
    let x: u8 = ((opcode & 0x0F00) >> 8) as u8;
    let y: u8 = ((opcode & 0x00F0) >> 4) as u8;
    let n: u8 = (opcode & 0x000F) as u8;
    let kk: u8 = (opcode & 0x00FF) as u8;
    let addr: u16 = opcode & 0x0FFF;
    assert(opcode >> 12 == opcode / 0x1000) by (bit_vector);
    assert(((opcode & 0x0F00) >> 8) == (opcode / 0x100) % 0x10) by (bit_vector);
    assert(((opcode & 0x00F0) >> 4) == (opcode / 0x10) % 0x10) by (bit_vector);
    assert((opcode & 0x000F) == opcode % 0x10) by (bit_vector);
    assert((opcode & 0x00FF) == opcode % 0x100) by (bit_vector);
    assert((opcode & 0x0FFF) == opcode % 0x1000) by (bit_vector);
    match kind {
        0x0 => match opcode {
            0x00E0 => Some(Instruction::Device(Device::ClearScreen)),
            0x00EE => Some(Instruction::Flow(Flow::Return)),
            _ => if opcode < 0x0100 {
                None
            } else {
                Some(Instruction::Flow(Flow::Jump { addr }))
            },
        },
        0x1 => Some(Instruction::Flow(Flow::Jump { addr })),
        0x2 => Some(Instruction::Flow(Flow::Call { addr })),
        0x3 => Some(Instruction::Flow(Flow::SkipIfEqual { x, kk })),
        0x4 => Some(Instruction::Flow(Flow::SkipIfNotEqual { x, kk })),
        0x5 => Some(Instruction::Flow(Flow::SkipIfSame { x, y })),
        0x6 => Some(Instruction::Assign(Assign::Load { x, kk })),
        0x7 => Some(Instruction::Assign(Assign::AddByte { x, kk })),
        0x8 => match n {
            0x0 => Some(Instruction::Assign(Assign::Move { x, y })),
            0x1 => Some(Instruction::Assign(Assign::Or { x, y })),
            0x2 => Some(Instruction::Assign(Assign::And { x, y })),
            0x3 => Some(Instruction::Assign(Assign::Xor { x, y })),
            0x4 => Some(Instruction::Arithmetic(Arithmetic::Add { x, y })),
            0x5 => Some(Instruction::Arithmetic(Arithmetic::Subtract { x, y })),
            0x6 => Some(Instruction::Arithmetic(Arithmetic::ShiftRight { x })),
            0x7 => Some(Instruction::Arithmetic(Arithmetic::SubtractFrom { x, y })),
            0xE => Some(Instruction::Arithmetic(Arithmetic::ShiftLeft { x })),
            _ => None,
        },
        0x9 => Some(Instruction::Flow(Flow::SkipIfDifferent { x, y })),
        0xA => Some(Instruction::Transfer(Transfer::LoadIndex { addr })),
        0xB => Some(Instruction::Flow(Flow::JumpOffset { addr })),
        0xC => Some(Instruction::Assign(Assign::Random { x, kk })),
        0xD => Some(Instruction::Device(Device::Draw { x, y, n })),
        0xE => match kk {
            0x9E => Some(Instruction::Flow(Flow::SkipIfKey { x })),
            0xA1 => Some(Instruction::Flow(Flow::SkipIfNoKey { x })),
            _ => None,
        },
        _ => match kk {
            0x07 => Some(Instruction::Assign(Assign::ReadDelay { x })),
            0x0A => Some(Instruction::Device(Device::WaitKey { x })),
            0x15 => Some(Instruction::Device(Device::SetDelay { x })),
            0x18 => Some(Instruction::Device(Device::SetSound { x })),
            0x1E => Some(Instruction::Transfer(Transfer::AddIndex { x })),
            0x29 => Some(Instruction::Transfer(Transfer::Glyph { x })),
            0x33 => Some(Instruction::Transfer(Transfer::StoreDecimal { x })),
            0x55 => Some(Instruction::Transfer(Transfer::StoreRegisters { x })),
            0x65 => Some(Instruction::Transfer(Transfer::LoadRegisters { x })),
            _ => None,
        },
    }
}

} // verus!
