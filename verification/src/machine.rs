//! The machine as a state and its instructions as functions on states: what
//! the engine is held to.

use crate::alu::{wrapped_byte, wrapped_word};
use crate::cpu::{CpuError, SPRITES};
use crate::io::{MemoryError, overwritten};
use crate::opcode::{
    Arithmetic, Assign, Device, Flow, Instruction, Transfer, decoded, register_fault,
};
use crate::screen::{blank, collides, drawn};
use crate::timer::decremented;
use vstd::prelude::*;

verus! {

/// The state of the machine as mathematics sees it.
#[verifier::ext_equal]
pub struct Machine {
    /// The register that waits for a key press, while the engine is paused
    /// for one.
    pub waiting: Option<u8>,
    /// Instructions a second.
    pub clock_speed: u32,
    /// The address of the next instruction.
    pub pc: u16,
    /// The 4096 bytes of memory.
    pub memory: Seq<u8>,
    /// The return addresses on the call stack, the oldest first.
    pub stack: Seq<u16>,
    /// The sixteen registers V0 to VF.
    pub v: Seq<u8>,
    /// The index register.
    pub i: u16,
    /// The delay timer.
    pub delay: u8,
    /// The sound timer.
    pub sound: u8,
    /// The 2048 pixels of the screen, row by row.
    pub pixels: Seq<bool>,
    /// The key that is pressed, if one is.
    pub key: Option<u8>,
}

impl Machine {
    /// Whether the parts of the state have the sizes of the machine's parts.
    pub open spec fn well_formed(self) -> bool {
        &&& self.memory.len() == 4096
        &&& self.stack.len() <= 16
        &&& self.v.len() == 16
        &&& self.pixels.len() == 2048
        &&& self.clock_speed > 0
        &&& self.waiting matches Some(x) ==> x < 16
    }
}

/// The machine as it is switched on: the glyphs in memory and all else zero,
/// ready to run from address 0x200.
pub open spec fn switched_on() -> Machine {
    Machine {
        waiting: None,
        clock_speed: 500,
        pc: 0x200,
        memory: overwritten(Seq::new(4096, |k: int| 0u8), 0, SPRITES@),
        stack: Seq::empty(),
        v: Seq::new(16, |k: int| 0u8),
        i: 0,
        delay: 0,
        sound: 0,
        pixels: blank(),
        key: None,
    }
}

/// The program counter one instruction further on.
pub open spec fn advanced(pc: u16) -> u16 {
    wrapped_word(pc + 2)
}

/// The program counter after an instruction which skips the one after it
/// when `skip` holds; `next` is where that one lies.
pub open spec fn skipped(next: u16, skip: bool) -> u16 {
    if skip {
        advanced(next)
    } else {
        next
    }
}

/// A flag as the byte that `VF` holds for it.
pub open spec fn flag(raised: bool) -> u8 {
    if raised {
        1
    } else {
        0
    }
}

/// The registers after an instruction that gives a flag: `VF` takes the
/// flag, then `V[x]` takes `value`. Where `x` is `F`, the value stays.
pub open spec fn flagged(v: Seq<u8>, x: u8, value: u8, raised: bool) -> Seq<u8> {
    v.update(0xF, flag(raised)).update(x as int, value)
}

/// The three decimal digits of a byte, the hundreds first.
pub open spec fn decimal_digits(value: u8) -> Seq<u8> {
    seq![value / 100, (value / 10) % 10, value % 10]
}

/// What an instruction that decides where the engine goes on makes of the
/// machine `m`. A call remembers, and a skip starts from, the instruction
/// after the one that is executed.
pub open spec fn flowed(m: Machine, flow: Flow) -> Result<Machine, CpuError> {
    let next = advanced(m.pc);
    match flow {
        Flow::Return => if m.stack.len() == 0 {
            Err(CpuError::Memory(MemoryError::StackUnderflow))
        } else {
            Ok(Machine { pc: m.stack.last(), stack: m.stack.drop_last(), ..m })
        },
        Flow::Jump { addr } => Ok(Machine { pc: addr, ..m }),
        Flow::Call { addr } => if m.stack.len() >= 16 {
            Err(CpuError::Memory(MemoryError::StackOverflow))
        } else {
            Ok(Machine { pc: addr, stack: m.stack.push(next), ..m })
        },
        Flow::JumpOffset { addr } => Ok(Machine { pc: wrapped_word(addr + m.v[0]), ..m }),
        Flow::SkipIfEqual { x, kk } => Ok(Machine { pc: skipped(next, m.v[x as int] == kk), ..m }),
        Flow::SkipIfNotEqual { x, kk } => Ok(
            Machine { pc: skipped(next, m.v[x as int] != kk), ..m },
        ),
        Flow::SkipIfSame { x, y } => Ok(
            Machine { pc: skipped(next, m.v[x as int] == m.v[y as int]), ..m },
        ),
        Flow::SkipIfDifferent { x, y } => Ok(
            Machine { pc: skipped(next, m.v[x as int] != m.v[y as int]), ..m },
        ),
        Flow::SkipIfKey { x } => Ok(
            Machine { pc: skipped(next, m.key == Some(m.v[x as int])), ..m },
        ),
        Flow::SkipIfNoKey { x } => Ok(
            Machine { pc: skipped(next, m.key != Some(m.v[x as int])), ..m },
        ),
    }
}

/// The register that an assignment sets.
pub open spec fn assigned_register(assign: Assign) -> u8 {
    match assign {
        Assign::Load { x, .. }
        | Assign::AddByte { x, .. }
        | Assign::Move { x, .. }
        | Assign::Or { x, .. }
        | Assign::And { x, .. }
        | Assign::Xor { x, .. }
        | Assign::Random { x, .. }
        | Assign::ReadDelay { x } => x,
    }
}

/// The value that an assignment gives to its register in the machine `m`;
/// `random` is the byte that chance gives to `CXKK`.
pub open spec fn assigned_value(m: Machine, assign: Assign, random: u8) -> u8 {
    match assign {
        Assign::Load { x, kk } => kk,
        Assign::AddByte { x, kk } => wrapped_byte(m.v[x as int] + kk),
        Assign::Move { x, y } => m.v[y as int],
        Assign::Or { x, y } => m.v[x as int] | m.v[y as int],
        Assign::And { x, y } => m.v[x as int] & m.v[y as int],
        Assign::Xor { x, y } => m.v[x as int] ^ m.v[y as int],
        Assign::Random { x, kk } => random & kk,
        Assign::ReadDelay { x } => m.delay,
    }
}

/// What an assignment makes of the machine `m`.
pub open spec fn assigned(m: Machine, assign: Assign, random: u8) -> Machine {
    Machine {
        pc: advanced(m.pc),
        v: m.v.update(assigned_register(assign) as int, assigned_value(m, assign, random)),
        ..m
    }
}

/// The register that an arithmetic instruction sets.
pub open spec fn computed_register(arithmetic: Arithmetic) -> u8 {
    match arithmetic {
        Arithmetic::Add { x, .. }
        | Arithmetic::Subtract { x, .. }
        | Arithmetic::SubtractFrom { x, .. }
        | Arithmetic::ShiftRight { x }
        | Arithmetic::ShiftLeft { x } => x,
    }
}

/// The value that an arithmetic instruction computes in the machine `m`.
pub open spec fn computed_value(m: Machine, arithmetic: Arithmetic) -> u8 {
    match arithmetic {
        Arithmetic::Add { x, y } => wrapped_byte(m.v[x as int] + m.v[y as int]),
        Arithmetic::Subtract { x, y } => wrapped_byte(m.v[x as int] - m.v[y as int]),
        Arithmetic::SubtractFrom { x, y } => wrapped_byte(m.v[y as int] - m.v[x as int]),
        Arithmetic::ShiftRight { x } => m.v[x as int] / 2,
        Arithmetic::ShiftLeft { x } => wrapped_byte(m.v[x as int] * 2),
    }
}

/// The flag that an arithmetic instruction raises in the machine `m`: the
/// carry of a sum, that a difference needed no borrow, or the bit that a
/// shift pushed out.
pub open spec fn computed_flag(m: Machine, arithmetic: Arithmetic) -> bool {
    match arithmetic {
        Arithmetic::Add { x, y } => m.v[x as int] + m.v[y as int] > 0xFF,
        Arithmetic::Subtract { x, y } => m.v[x as int] >= m.v[y as int],
        Arithmetic::SubtractFrom { x, y } => m.v[y as int] >= m.v[x as int],
        Arithmetic::ShiftRight { x } => m.v[x as int] % 2 == 1,
        Arithmetic::ShiftLeft { x } => m.v[x as int] >= 0x80,
    }
}

/// What an arithmetic instruction makes of the machine `m`.
pub open spec fn computed(m: Machine, arithmetic: Arithmetic) -> Machine {
    Machine {
        pc: advanced(m.pc),
        v: flagged(
            m.v,
            computed_register(arithmetic),
            computed_value(m, arithmetic),
            computed_flag(m, arithmetic),
        ),
        ..m
    }
}

/// What an instruction on the index register and the memory makes of the
/// machine `m`. Bytes that would go to or come from beyond the memory give
/// `OutOfBounds`.
pub open spec fn transferred(m: Machine, transfer: Transfer) -> Result<Machine, CpuError> {
    let next = advanced(m.pc);
    match transfer {
        Transfer::LoadIndex { addr } => Ok(Machine { pc: next, i: addr, ..m }),
        Transfer::AddIndex { x } => Ok(
            Machine { pc: next, i: wrapped_word(m.i + m.v[x as int]), ..m },
        ),
        Transfer::Glyph { x } => Ok(Machine { pc: next, i: (m.v[x as int] * 5) as u16, ..m }),
        Transfer::StoreDecimal { x } => if m.i + 3 > 4096 {
            Err(CpuError::Memory(MemoryError::OutOfBounds))
        } else {
            Ok(
                Machine {
                    pc: next,
                    memory: overwritten(m.memory, m.i as nat, decimal_digits(m.v[x as int])),
                    ..m
                },
            )
        },
        Transfer::StoreRegisters { x } => if m.i + x + 1 > 4096 {
            Err(CpuError::Memory(MemoryError::OutOfBounds))
        } else {
            Ok(
                Machine {
                    pc: next,
                    memory: overwritten(m.memory, m.i as nat, m.v.subrange(0, x + 1)),
                    ..m
                },
            )
        },
        Transfer::LoadRegisters { x } => if m.i + x + 1 > 4096 {
            Err(CpuError::Memory(MemoryError::OutOfBounds))
        } else {
            Ok(
                Machine {
                    pc: next,
                    v: overwritten(m.v, 0, m.memory.subrange(m.i as int, m.i + x + 1)),
                    ..m
                },
            )
        },
    }
}

/// What an instruction on the screen, the keypad or a timer makes of the
/// machine `m`. A sprite whose rows do not all lie in the memory gives
/// `OutOfBounds`.
pub open spec fn driven(m: Machine, device: Device) -> Result<Machine, CpuError> {
    let next = advanced(m.pc);
    match device {
        Device::ClearScreen => Ok(Machine { pc: next, pixels: blank(), ..m }),
        Device::Draw { x, y, n } => if m.i + n > 4096 {
            Err(CpuError::Memory(MemoryError::OutOfBounds))
        } else {
            let sprite = m.memory.subrange(m.i as int, m.i + n);
            Ok(
                Machine {
                    pc: next,
                    v: m.v.update(
                        0xF,
                        flag(collides(m.pixels, m.v[x as int], m.v[y as int], sprite)),
                    ),
                    pixels: drawn(m.pixels, m.v[x as int], m.v[y as int], sprite),
                    ..m
                },
            )
        },
        Device::WaitKey { x } => match m.key {
            Some(key) => Ok(Machine { pc: next, v: m.v.update(x as int, key), ..m }),
            None => Ok(Machine { pc: next, waiting: Some(x), ..m }),
        },
        Device::SetDelay { x } => Ok(Machine { pc: next, delay: m.v[x as int], ..m }),
        Device::SetSound { x } => Ok(Machine { pc: next, sound: m.v[x as int], ..m }),
    }
}

/// What `instruction` makes of the machine `m` that fetched it, where the
/// engine is not paused and the instruction can reach its registers;
/// `random` is the byte that chance gives to `CXKK`. The program counter
/// moves past the instruction before the instruction acts.
pub open spec fn performed(m: Machine, instruction: Instruction, random: u8) -> Result<
    Machine,
    CpuError,
> {
    match instruction {
        Instruction::Flow(flow) => flowed(m, flow),
        Instruction::Assign(assign) => Ok(assigned(m, assign, random)),
        Instruction::Arithmetic(arithmetic) => Ok(computed(m, arithmetic)),
        Instruction::Transfer(transfer) => transferred(m, transfer),
        Instruction::Device(device) => driven(m, device),
    }
}

/// What the engine makes of `instruction` in the state `m`. A paused engine
/// leaves it alone. A failure leaves no trace: the result is then the error
/// and the machine stays as it was.
pub open spec fn executed(m: Machine, instruction: Instruction, random: u8) -> Result<
    Machine,
    CpuError,
> {
    if m.waiting is Some {
        Ok(m)
    } else {
        match register_fault(instruction) {
            Some(fault) => Err(CpuError::Memory(fault)),
            None => performed(m, instruction, random),
        }
    }
}

/// Whether `opcode` is a `CXKK`, the one instruction to which chance gives a
/// byte.
pub open spec fn takes_chance(opcode: u16) -> bool {
    decoded(opcode) matches Some(Instruction::Assign(Assign::Random { .. }))
}

/// What the engine makes of `opcode` in the state `m`: what it makes of the
/// instruction that the opcode stands for, or `InvalidOpcode` where it stands
/// for none.
pub open spec fn run(m: Machine, opcode: u16, random: u8) -> Result<Machine, CpuError> {
    if m.waiting is Some {
        Ok(m)
    } else {
        match decoded(opcode) {
            Some(instruction) => executed(m, instruction, random),
            None => Err(CpuError::InvalidOpcode(opcode)),
        }
    }
}

/// The opcode at the program counter of `m`: the byte there is its high
/// half, the byte after it its low half. `OutOfBounds` where one of the two
/// lies beyond the memory.
pub open spec fn fetched(m: Machine) -> Result<u16, CpuError> {
    if m.pc + 1 < 4096 {
        Ok((m.memory[m.pc as int] * 0x100 + m.memory[m.pc + 1]) as u16)
    } else {
        Err(CpuError::Memory(MemoryError::OutOfBounds))
    }
}

/// One cycle of the engine in the state `m`: fetch, decode, execute. A
/// paused engine does nothing.
pub open spec fn cycled(m: Machine, random: u8) -> Result<Machine, CpuError> {
    if m.waiting is Some {
        Ok(m)
    } else {
        match fetched(m) {
            Ok(opcode) => run(m, opcode, random),
            Err(fault) => Err(fault),
        }
    }
}

/// The state `m` after one cycle for each byte of `chance`, which are the
/// bytes that chance gives to the cycles in turn; the first error ends the
/// run.
pub open spec fn cycled_all(m: Machine, chance: Seq<u8>) -> Result<Machine, CpuError>
    decreases chance.len(),
{
    if chance.len() == 0 {
        Ok(m)
    } else {
        match cycled(m, chance.first()) {
            Ok(after) => cycled_all(after, chance.drop_first()),
            Err(fault) => Err(fault),
        }
    }
}

/// The state `m` after the keypad reported `key`, a pressed key or none. A
/// machine that waits for a key takes a pressed key into the waiting
/// register and goes on.
pub open spec fn keyed(m: Machine, key: Option<u8>) -> Machine {
    match (m.waiting, key) {
        (Some(x), Some(pressed)) => Machine {
            waiting: None,
            v: m.v.update(x as int, pressed),
            key,
            ..m
        },
        _ => Machine { key, ..m },
    }
}

/// The state `m` after the keypad made the reports of `keys`, one after
/// another.
pub open spec fn keyed_all(m: Machine, keys: Seq<Option<u8>>) -> Machine
    decreases keys.len(),
{
    if keys.len() == 0 {
        m
    } else {
        keyed_all(keyed(m, keys.first()), keys.drop_first())
    }
}

/// How many nanoseconds one instruction takes at `clock_speed` instructions a
/// second, rounded down.
pub open spec fn clock_period(clock_speed: u32) -> int {
    1_000_000_000int / (clock_speed as int)
}

/// How many nanoseconds the paced engine sleeps after a cycle that took
/// `elapsed` nanoseconds: the rest of the instruction's period. After a cycle
/// that took longer than the period it does not sleep, and it makes up for
/// nothing.
pub open spec fn clock_rest(clock_speed: u32, elapsed: u64) -> Option<u64> {
    if elapsed <= clock_period(clock_speed) {
        Some((clock_period(clock_speed) - elapsed) as u64)
    } else {
        None
    }
}

/// The state `m` after one tick of the delay timer's decay.
pub open spec fn ticked_delay(m: Machine) -> Machine {
    Machine { delay: decremented(m.delay), ..m }
}

/// The state `m` after one tick of the sound timer's decay.
pub open spec fn ticked_sound(m: Machine) -> Machine {
    Machine { sound: decremented(m.sound), ..m }
}

/// Whatever an instruction makes of a machine whose parts have their sizes
/// is a machine whose parts have their sizes.
pub proof fn lemma_executed_is_well_formed(m: Machine, instruction: Instruction, random: u8)
    requires
        m.well_formed(),
    ensures
        executed(m, instruction, random) matches Ok(after) ==> after.well_formed(),
{
}

/// The byte of chance matters to `CXKK` alone: every other instruction does
/// the same whatever the byte is.
pub proof fn lemma_chance_matters_to_random_only(
    m: Machine,
    instruction: Instruction,
    random: u8,
    other: u8,
)
    requires
        !(instruction matches Instruction::Assign(Assign::Random { .. })),
    ensures
        executed(m, instruction, random) == executed(m, instruction, other),
{
}

/// An opcode that stands for no instruction stops a running engine with
/// `InvalidOpcode`, whatever state it is in.
pub proof fn lemma_unknown_opcode_is_invalid(m: Machine, opcode: u16, random: u8)
    requires
        m.waiting is None,
        decoded(opcode) is None,
    ensures
        run(m, opcode, random) == Err::<Machine, CpuError>(CpuError::InvalidOpcode(opcode)),
{
}

/// `FX0A` is the one instruction that pauses the engine, and it pauses only
/// while no key is pressed.
pub proof fn lemma_only_wait_key_pauses(m: Machine, instruction: Instruction, random: u8)
    requires
        m.waiting is None,
        executed(m, instruction, random) matches Ok(after) && after.waiting is Some,
    ensures
        instruction matches Instruction::Device(Device::WaitKey { .. }),
        m.key is None,
{
}

/// `FX0A` holds the engine until a key is pressed. Executed while no key is
/// pressed, it pauses the engine behind the instruction, with the register
/// `x` waiting. From then on no number of cycles changes anything, and a
/// report of no key changes nothing. The first pressed key goes into
/// `V[x]`, and the engine runs on where it had stopped: but for that
/// register and the key, the machine is as it was when it paused.
pub proof fn lemma_wait_key_holds_until_key_press(m: Machine, x: u8, chance: Seq<u8>, pressed: u8)
    requires
        m.waiting is None,
        m.key is None,
        x < 16,
    ensures
        ({
            let paused = Machine { pc: advanced(m.pc), waiting: Some(x), ..m };
            &&& executed(m, Instruction::Device(Device::WaitKey { x }), 0) == Ok::<
                Machine,
                CpuError,
            >(paused)
            &&& cycled_all(paused, chance) == Ok::<Machine, CpuError>(paused)
            &&& keyed(paused, None) == paused
            &&& keyed(paused, Some(pressed)) == (Machine {
                waiting: None,
                v: m.v.update(x as int, pressed),
                key: Some(pressed),
                ..paused
            })
        }),
{
    let paused = Machine { pc: advanced(m.pc), waiting: Some(x), ..m };
    lemma_paused_engine_rests(paused, Instruction::Device(Device::WaitKey { x }), 0, 0, chance);
}

/// `FX0A` executed while a key is pressed takes that key into `V[x]` at once
/// and does not pause.
pub proof fn lemma_wait_key_takes_pressed_key(m: Machine, x: u8)
    requires
        m.waiting is None,
        m.key is Some,
        x < 16,
    ensures
        executed(m, Instruction::Device(Device::WaitKey { x }), 0) == Ok::<Machine, CpuError>(
            Machine { pc: advanced(m.pc), v: m.v.update(x as int, m.key->0), ..m },
        ),
{
}

/// A paused engine rests: no instruction, no opcode and no number of cycles
/// changes anything, and none fails.
pub proof fn lemma_paused_engine_rests(
    m: Machine,
    instruction: Instruction,
    opcode: u16,
    random: u8,
    chance: Seq<u8>,
)
    requires
        m.waiting is Some,
    ensures
        executed(m, instruction, random) == Ok::<Machine, CpuError>(m),
        run(m, opcode, random) == Ok::<Machine, CpuError>(m),
        cycled(m, random) == Ok::<Machine, CpuError>(m),
        cycled_all(m, chance) == Ok::<Machine, CpuError>(m),
    decreases chance.len(),
{
    if chance.len() > 0 {
        lemma_paused_engine_rests(m, instruction, opcode, random, chance.drop_first());
    }
}

/// Only a key press ends the pause. A report of no key leaves the engine
/// paused as it was. A pressed key goes into the register that waits, and the
/// engine runs on where it had stopped: the program counter, the memory, the
/// call stack, the index register, the timers and the screen are as they
/// were.
pub proof fn lemma_key_press_resumes(m: Machine, key: Option<u8>)
    requires
        m.waiting is Some,
    ensures
        key is None ==> keyed(m, key) == (Machine { key: None, ..m }),
        key matches Some(pressed) ==> keyed(m, key) == (Machine {
            waiting: None,
            v: m.v.update(m.waiting->0 as int, pressed),
            key: Some(pressed),
            ..m
        }),
{
}

/// A running engine takes note of the keypad's reports and of nothing else:
/// they change the pressed key alone.
pub proof fn lemma_key_reports_to_running_engine(m: Machine, keys: Seq<Option<u8>>)
    requires
        m.waiting is None,
    ensures
        keyed_all(m, keys) == (Machine { key: keyed_all(m, keys).key, ..m }),
        keys.len() > 0 ==> keyed_all(m, keys).key == keys.last(),
    decreases keys.len(),
{
    if keys.len() > 0 {
        lemma_key_reports_to_running_engine(keyed(m, keys.first()), keys.drop_first());
    }
}

/// No key press is missed. The press that ends the pause is in the waiting
/// register from the moment it is reported: whatever the keypad reports
/// after it, a release or other keys, the register keeps that key and the
/// engine stays ready to run.
pub proof fn lemma_key_press_is_not_missed(m: Machine, pressed: u8, later: Seq<Option<u8>>)
    requires
        m.waiting is Some,
    ensures
        keyed_all(keyed(m, Some(pressed)), later).waiting is None,
        keyed_all(keyed(m, Some(pressed)), later).v == m.v.update(m.waiting->0 as int, pressed),
        keyed_all(keyed(m, Some(pressed)), later).pc == m.pc,
    decreases later.len(),
{
    lemma_key_reports_to_running_engine(keyed(m, Some(pressed)), later);
}

/// A tick of a timer leaves a paused engine paused: time alone does not end
/// the wait for a key.
pub proof fn lemma_ticks_keep_the_pause(m: Machine)
    ensures
        ticked_delay(m).waiting == m.waiting,
        ticked_sound(m).waiting == m.waiting,
        ticked_delay(m).pc == m.pc,
        ticked_sound(m).pc == m.pc,
        ticked_delay(m).v == m.v,
        ticked_sound(m).v == m.v,
{
}

} // verus!
