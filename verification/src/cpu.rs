//! The engine: fetch, decode and execute, one instruction a cycle.

use crate::alu::{add_with_carry, shift_left, shift_right, subtract_with_borrow};
use crate::io::{MemoryError, Read, Write, follows, overwritten};
use crate::keyboard::Keyboard;
use crate::machine::{
    Machine, advanced, assigned, clock_rest, computed, cycled, driven, executed, fetched, flag,
    flowed, keyed, run, skipped, switched_on, takes_chance, ticked_delay, ticked_sound,
    transferred,
};
use crate::opcode::{
    Arithmetic, Assign, Device, Flow, Instruction, Transfer, decode, register_fault,
};
use crate::ram::{RAM, Stack};
use crate::registers::{I, V};
use crate::screen::Screen;
use crate::timer::{DelayTimer, SoundTimer};
use rand::Rng;
use vstd::prelude::*;

verus! {

/// The glyphs of the sixteen hexadecimal digits, five rows each, which lie
/// in memory from address 0 on.
pub const SPRITES: [u8; 80] = [
    0xF0, 0x90, 0x90, 0x90, 0xF0,
    0x20, 0x60, 0x20, 0x20, 0x70,
    0xF0, 0x10, 0xF0, 0x80, 0xF0,
    0xF0, 0x10, 0xF0, 0x10, 0xF0,
    0x90, 0x90, 0xF0, 0x10, 0x10,
    0xF0, 0x80, 0xF0, 0x10, 0xF0,
    0xF0, 0x80, 0xF0, 0x90, 0xF0,
    0xF0, 0x10, 0x20, 0x40, 0x40,
    0xF0, 0x90, 0xF0, 0x90, 0xF0,
    0xF0, 0x90, 0xF0, 0x10, 0xF0,
    0xF0, 0x90, 0xF0, 0x90, 0x90,
    0xE0, 0x90, 0xE0, 0x90, 0xE0,
    0xF0, 0x80, 0x80, 0x80, 0xF0,
    0xE0, 0x90, 0x90, 0x90, 0xE0,
    0xF0, 0x80, 0xF0, 0x80, 0xF0,
    0xF0, 0x80, 0xF0, 0x80, 0x80,
];

/// Where programs are loaded and start to run.
pub const PROGRAM_START: u16 = 0x200;

/// How many instructions a second the engine runs unless told otherwise.
pub const DEFAULT_CLOCK_SPEED: u32 = 500;

/// Why the engine stopped.
#[derive(Debug, Clone, Copy, PartialEq, Eq, Structural)]
pub enum CpuError {
    /// An access to memory, to the registers or to the call stack failed.
    Memory(MemoryError),
    /// The opcode stands for no instruction.
    InvalidOpcode(u16),
}

/// The engine: the program counter and the pause flag, with the memory,
/// registers, call stack, timers, screen and keypad that instructions work
/// on.
pub struct CPU {
    is_paused: bool,
    key_register: u8,
    clock_speed: u32,
    program_counter: u16,
    ram: RAM,
    stack: Stack,
    sound_timer: SoundTimer,
    delay_timer: DelayTimer,
    v: V,
    i: I,
    screen: Screen,
    keyboard: Keyboard,
}

impl View for CPU {
    type V = Machine;

    closed spec fn view(&self) -> Machine {
        Machine {
            waiting: if self.is_paused {
                Some(self.key_register)
            } else {
                None
            },
            clock_speed: self.clock_speed,
            pc: self.program_counter,
            memory: self.ram@,
            stack: self.stack@,
            v: self.v@,
            i: self.i@,
            delay: self.delay_timer@,
            sound: self.sound_timer@,
            pixels: self.screen@,
            key: self.keyboard@,
        }
    }
}

impl CPU {
    /// A machine that was just switched on.
    pub fn new() -> (cpu: Self)
        ensures
            cpu@ == switched_on(),
            cpu@.well_formed(),
    {
        let mut ram = RAM::new();
        ram.write_buf(0, &SPRITES).unwrap();
        CPU {
            is_paused: false,
            key_register: 0,
            clock_speed: DEFAULT_CLOCK_SPEED,
            program_counter: PROGRAM_START,
            ram,
            stack: Stack::new(),
            sound_timer: SoundTimer::new(),
            delay_timer: DelayTimer::new(),
            v: V::new(),
            i: I::new(),
            screen: Screen::new(),
            keyboard: Keyboard::new(),
        }
    }

    /// Copies a program into memory from address 0x200 on. A program of more
    /// than 0xE00 bytes does not fit: it gives `OutOfBounds` and nothing is
    /// copied.
    pub fn load_rom(&mut self, data: &[u8]) -> (result: Result<(), MemoryError>)
        requires
            old(self)@.well_formed(),
        ensures
            data@.len() <= 0xE00 ==> result is Ok && final(self)@ == (Machine {
                memory: overwritten(old(self)@.memory, 0x200, data@),
                ..old(self)@
            }),
            data@.len() > 0xE00 ==> result == Err::<(), MemoryError>(MemoryError::OutOfBounds)
                && final(self)@ == old(self)@,
            final(self)@.well_formed(),
    {
        self.ram.write_buf(PROGRAM_START, data)
    }

    /// Executes one instruction; `random` is the byte that `CXKK` masks. The
    /// program counter first moves past the instruction, then the instruction
    /// acts. A paused engine does nothing. On an error the machine stays as
    /// it was.
    pub fn execute(&mut self, instruction: Instruction, random: u8) -> (result: Result<
        (),
        CpuError,
    >)
        requires
            old(self)@.well_formed(),
        ensures
            follows(
                old(self)@,
                executed(old(self)@, instruction, random),
                result,
                final(self)@,
            ),
            final(self)@.well_formed(),
    {
        if self.is_paused {
            return Ok(());
        }
        if let Some(fault) = instruction.check_registers() {
            return Err(CpuError::Memory(fault));
        }
        match instruction {
            Instruction::Flow(flow) => self.execute_flow(flow),
            Instruction::Assign(assign) => {
                self.execute_assign(assign, random);
                Ok(())
            },
            Instruction::Arithmetic(arithmetic) => {
                self.execute_arithmetic(arithmetic);
                Ok(())
            },
            Instruction::Transfer(transfer) => self.execute_transfer(transfer),
            Instruction::Device(device) => self.execute_device(device),
        }
    }

    /// Executes an instruction that decides where the engine goes on.
    fn execute_flow(&mut self, flow: Flow) -> (result: Result<(), CpuError>)
        requires
            old(self)@.well_formed(),
            old(self)@.waiting is None,
            register_fault(Instruction::Flow(flow)) is None,
        ensures
            follows(old(self)@, flowed(old(self)@, flow), result, final(self)@),
            final(self)@.well_formed(),
    {
        let next: u16 = self.program_counter.wrapping_add(2);
        match flow {
            Flow::Return => {
                match self.stack.pop() {
                    Ok(address) => {
                        self.program_counter = address;
                    },
                    Err(fault) => {
                        return Err(CpuError::Memory(fault));
                    },
                }
            },
            Flow::Jump { addr } => {
                self.program_counter = addr;
            },
            Flow::Call { addr } => {
                match self.stack.push(next) {
                    Ok(()) => {
                        self.program_counter = addr;
                    },
                    Err(fault) => {
                        return Err(CpuError::Memory(fault));
                    },
                }
            },
            Flow::JumpOffset { addr } => {
                self.program_counter = addr.wrapping_add(self.register(0x0) as u16);
            },
            Flow::SkipIfEqual { x, kk } => {
                let skip: bool = self.register(x) == kk;
                self.program_counter = Self::skip(next, skip);
            },
            Flow::SkipIfNotEqual { x, kk } => {
                let skip: bool = self.register(x) != kk;
                self.program_counter = Self::skip(next, skip);
            },
            Flow::SkipIfSame { x, y } => {
                let skip: bool = self.register(x) == self.register(y);
                self.program_counter = Self::skip(next, skip);
            },
            Flow::SkipIfDifferent { x, y } => {
                let skip: bool = self.register(x) != self.register(y);
                self.program_counter = Self::skip(next, skip);
            },
            Flow::SkipIfKey { x } => {
                let skip: bool = self.keyboard.is_key_pressed(self.register(x));
                self.program_counter = Self::skip(next, skip);
            },
            Flow::SkipIfNoKey { x } => {
                let skip: bool = !self.keyboard.is_key_pressed(self.register(x));
                self.program_counter = Self::skip(next, skip);
            },
        }
        Ok(())
    }

    /// Executes an instruction that gives a register a new value and leaves
    /// the flag register alone.
    fn execute_assign(&mut self, assign: Assign, random: u8)
        requires
            old(self)@.well_formed(),
            old(self)@.waiting is None,
            register_fault(Instruction::Assign(assign)) is None,
        ensures
            final(self)@ == assigned(old(self)@, assign, random),
            final(self)@.well_formed(),
    {
        match assign {
            Assign::Load { x, kk } => {
                self.set_register(x, kk);
            },
            Assign::AddByte { x, kk } => {
                self.set_register(x, self.register(x).wrapping_add(kk));
            },
            Assign::Move { x, y } => {
                self.set_register(x, self.register(y));
            },
            Assign::Or { x, y } => {
                self.set_register(x, self.register(x) | self.register(y));
            },
            Assign::And { x, y } => {
                self.set_register(x, self.register(x) & self.register(y));
            },
            Assign::Xor { x, y } => {
                self.set_register(x, self.register(x) ^ self.register(y));
            },
            Assign::Random { x, kk } => {
                self.set_register(x, random & kk);
            },
            Assign::ReadDelay { x } => {
                self.set_register(x, self.delay_timer.read());
            },
        }
        self.increment_program_counter();
    }

    /// Executes an instruction that computes with a flag. `VF` takes the flag
    /// first and `V[x]` the result after it, so that the result stays where
    /// `x` is `F`.
    fn execute_arithmetic(&mut self, arithmetic: Arithmetic)
        requires
            old(self)@.well_formed(),
            old(self)@.waiting is None,
            register_fault(Instruction::Arithmetic(arithmetic)) is None,
        ensures
            final(self)@ == computed(old(self)@, arithmetic),
            final(self)@.well_formed(),
    {
        let (x, (value, raised)): (u8, (u8, bool)) = match arithmetic {
            Arithmetic::Add { x, y } => (x, add_with_carry(self.register(x), self.register(y))),
            Arithmetic::Subtract { x, y } => (
                x,
                subtract_with_borrow(self.register(x), self.register(y)),
            ),
            Arithmetic::SubtractFrom { x, y } => (
                x,
                subtract_with_borrow(self.register(y), self.register(x)),
            ),
            Arithmetic::ShiftRight { x } => (x, shift_right(self.register(x))),
            Arithmetic::ShiftLeft { x } => (x, shift_left(self.register(x))),
        };
        self.set_flag(raised);
        self.set_register(x, value);
        self.increment_program_counter();
    }

    /// Executes an instruction on the index register and the memory.
    fn execute_transfer(&mut self, transfer: Transfer) -> (result: Result<(), CpuError>)
        requires
            old(self)@.well_formed(),
            old(self)@.waiting is None,
            register_fault(Instruction::Transfer(transfer)) is None,
        ensures
            follows(old(self)@, transferred(old(self)@, transfer), result, final(self)@),
            final(self)@.well_formed(),
    {
        let stored: Result<(), MemoryError> = match transfer {
            Transfer::LoadIndex { addr } => {
                self.i.write(addr);
                Ok(())
            },
            Transfer::AddIndex { x } => {
                self.i.write(self.i.read().wrapping_add(self.register(x) as u16));
                Ok(())
            },
            Transfer::Glyph { x } => {
                self.i.write(self.register(x) as u16 * 5);
                Ok(())
            },
            Transfer::StoreDecimal { x } => {
                let value: u8 = self.register(x);
                let digits: [u8; 3] = [value / 100, (value / 10) % 10, value % 10];
                self.ram.write_buf(self.i.read(), &digits)
            },
            Transfer::StoreRegisters { x } => {
                let registers: &[u8] = self.v.read_range(0, x + 1).unwrap();
                self.ram.write_buf(self.i.read(), registers)
            },
            Transfer::LoadRegisters { x } => {
                match self.ram.read_range(self.i.read(), x as u16 + 1) {
                    Ok(bytes) => self.v.write_buf(0, bytes),
                    Err(fault) => Err(fault),
                }
            },
        };
        match stored {
            Ok(()) => {
                self.increment_program_counter();
                Ok(())
            },
            Err(fault) => Err(CpuError::Memory(fault)),
        }
    }

    /// Executes an instruction on the screen, the keypad or a timer.
    fn execute_device(&mut self, device: Device) -> (result: Result<(), CpuError>)
        requires
            old(self)@.well_formed(),
            old(self)@.waiting is None,
            register_fault(Instruction::Device(device)) is None,
        ensures
            follows(old(self)@, driven(old(self)@, device), result, final(self)@),
            final(self)@.well_formed(),
    {
        match device {
            Device::ClearScreen => {
                self.screen.clear();
            },
            Device::Draw { x, y, n } => {
                let column: u8 = self.register(x);
                let row: u8 = self.register(y);
                let collided: bool = match self.ram.read_range(self.i.read(), n as u16) {
                    Ok(sprite) => self.screen.draw(column, row, sprite),
                    Err(fault) => {
                        return Err(CpuError::Memory(fault));
                    },
                };
                self.set_flag(collided);
            },
            Device::WaitKey { x } => {
                match self.keyboard.wait_for_any_key_press() {
                    Some(key) => {
                        self.set_register(x, key);
                    },
                    None => {
                        self.is_paused = true;
                        self.key_register = x;
                    },
                }
            },
            Device::SetDelay { x } => {
                self.delay_timer.write(self.register(x));
            },
            Device::SetSound { x } => {
                self.sound_timer.write(self.register(x));
            },
        }
        self.increment_program_counter();
        Ok(())
    }

    /// Executes the instruction that `opcode` stands for; an opcode that
    /// stands for none gives `InvalidOpcode`. A paused engine does nothing. On
    /// an error the machine stays as it was.
    ///
    /// The byte that `CXKK` masks comes from the thread's random number
    /// generator: for such an opcode the outcome is that of `run` for some
    /// byte. For every other opcode no byte matters, and the outcome is that
    /// of `run` for the byte 0.
    pub fn execute_instruction(&mut self, opcode: u16) -> (result: Result<(), CpuError>)
        requires
            old(self)@.well_formed(),
        ensures
            exists|random: u8|
                follows(
                    old(self)@,
                    #[trigger] run(old(self)@, opcode, random),
                    result,
                    final(self)@,
                ),
            !takes_chance(opcode) ==> follows(
                old(self)@,
                run(old(self)@, opcode, 0),
                result,
                final(self)@,
            ),
            final(self)@.well_formed(),
    {
        if self.is_paused {
            return Ok(());
        }
        match decode(opcode) {
            Some(instruction) => {
                let random: u8 = match instruction {
                    Instruction::Assign(Assign::Random { .. }) => random_byte(),
                    _ => 0,
                };
                let result = self.execute(instruction, random);
                assert(follows(old(self)@, run(old(self)@, opcode, random), result, self@));
                result
            },
            None => {
                assert(follows(
                    old(self)@,
                    run(old(self)@, opcode, 0),
                    Err(CpuError::InvalidOpcode(opcode)),
                    self@,
                ));
                Err(CpuError::InvalidOpcode(opcode))
            },
        }
    }

    /// Reads the opcode at the program counter: two bytes, the high one
    /// first.
    fn fetch(&self) -> (result: Result<u16, CpuError>)
        requires
            self@.well_formed(),
        ensures
            result == fetched(self@),
    {
        let high: u8 = match self.ram.read(self.program_counter) {
            Ok(byte) => byte,
            Err(fault) => {
                return Err(CpuError::Memory(fault));
            },
        };
        let low: u8 = match self.ram.read(self.program_counter + 1) {
            Ok(byte) => byte,
            Err(fault) => {
                return Err(CpuError::Memory(fault));
            },
        };
        assert((high as u16) << 8 | low as u16 == high * 0x100 + low) by (bit_vector);
        Ok((high as u16) << 8 | low as u16)
    }

    /// One cycle of the engine: fetches the opcode at the program counter and
    /// executes it. A paused engine does nothing. On an error the machine
    /// stays as it was.
    ///
    /// Where the opcode is a `CXKK`, the outcome is that of `cycled` for some
    /// byte of chance; for every other opcode it is that of `cycled` for the
    /// byte 0.
    pub fn cycle(&mut self) -> (result: Result<(), CpuError>)
        requires
            old(self)@.well_formed(),
        ensures
            exists|random: u8|
                follows(
                    old(self)@,
                    #[trigger] cycled(old(self)@, random),
                    result,
                    final(self)@,
                ),
            !(fetched(old(self)@) matches Ok(opcode) && takes_chance(opcode)) ==> follows(
                old(self)@,
                cycled(old(self)@, 0),
                result,
                final(self)@,
            ),
            final(self)@.well_formed(),
    {
        if self.is_paused {
            return Ok(());
        }
        match self.fetch() {
            Ok(opcode) => {
                let result = self.execute_instruction(opcode);
                let ghost random = choose|random: u8|
                    follows(old(self)@, #[trigger] run(old(self)@, opcode, random), result, self@);
                assert(follows(old(self)@, cycled(old(self)@, random), result, self@));
                result
            },
            Err(fault) => {
                Err(fault)
            },
        }
    }

    /// Takes in what the keypad reports: the pressed key, or `None` for no
    /// key. An engine that waits for a key takes a pressed key into the
    /// register that waits for it and runs again.
    pub fn set_key(&mut self, key: Option<u8>)
        requires
            old(self)@.well_formed(),
        ensures
            final(self)@ == keyed(old(self)@, key),
            final(self)@.well_formed(),
    {
        self.keyboard.set_key(key);
        if self.is_paused {
            if let Some(pressed) = self.keyboard.wait_for_any_key_press() {
                self.set_register(self.key_register, pressed);
                self.is_paused = false;
            }
        }
    }

    /// One tick of the delay timer's decay. Returns whether there was
    /// anything to decrement.
    pub fn tick_delay_timer(&mut self) -> (running: bool)
        requires
            old(self)@.well_formed(),
        ensures
            final(self)@ == ticked_delay(old(self)@),
            running == (old(self)@.delay > 0),
            final(self)@.well_formed(),
    {
        self.delay_timer.tick()
    }

    /// One tick of the sound timer's decay. Returns whether there was
    /// anything to decrement.
    pub fn tick_sound_timer(&mut self) -> (running: bool)
        requires
            old(self)@.well_formed(),
        ensures
            final(self)@ == ticked_sound(old(self)@),
            running == (old(self)@.sound > 0),
            final(self)@.well_formed(),
    {
        self.sound_timer.tick()
    }

    /// How many instructions a second the engine is paced to.
    pub fn clock_speed(&self) -> (speed: u32)
        ensures
            speed == self@.clock_speed,
    {
        self.clock_speed
    }

    /// Sets how many instructions a second the engine is paced to. A speed
    /// of zero is no speed: it is refused, with `false`, and the speed stays
    /// as it was.
    pub fn set_clock_speed(&mut self, speed: u32) -> (accepted: bool)
        requires
            old(self)@.well_formed(),
        ensures
            accepted == (speed > 0),
            accepted ==> final(self)@ == (Machine { clock_speed: speed, ..old(self)@ }),
            !accepted ==> final(self)@ == old(self)@,
            final(self)@.well_formed(),
    {
        if speed == 0 {
            return false;
        }
        self.clock_speed = speed;
        true
    }

    /// What the pacing loop does after a cycle that took `elapsed_nanos`
    /// nanoseconds: sleep for the returned number of nanoseconds, the rest of
    /// the instruction's period, or not at all (`None`) when the cycle took
    /// longer than the period.
    pub fn clock_wait(&self, elapsed_nanos: u64) -> (rest: Option<u64>)
        requires
            self@.well_formed(),
        ensures
            rest == clock_rest(self@.clock_speed, elapsed_nanos),
    {
        let period: u64 = 1_000_000_000 / self.clock_speed as u64;
        period.checked_sub(elapsed_nanos)
    }

    /// Whether the engine is paused: whether it waits for a key press.
    pub fn is_paused(&self) -> (paused: bool)
        ensures
            paused == self@.waiting is Some,
    {
        self.is_paused
    }

    /// The address of the next instruction.
    pub fn program_counter(&self) -> (pc: u16)
        ensures
            pc == self@.pc,
    {
        self.program_counter
    }

    /// The memory.
    pub fn ram(&self) -> (ram: &RAM)
        ensures
            ram@ == self@.memory,
    {
        &self.ram
    }

    /// The call stack.
    pub fn stack(&self) -> (stack: &Stack)
        ensures
            stack@ == self@.stack,
    {
        &self.stack
    }

    /// The registers V0 to VF.
    pub fn v(&self) -> (v: &V)
        ensures
            v@ == self@.v,
    {
        &self.v
    }

    /// The index register.
    pub fn i(&self) -> (i: &I)
        ensures
            i@ == self@.i,
    {
        &self.i
    }

    /// The delay timer.
    pub fn delay_timer(&self) -> (timer: &DelayTimer)
        ensures
            timer@ == self@.delay,
    {
        &self.delay_timer
    }

    /// The sound timer.
    pub fn sound_timer(&self) -> (timer: &SoundTimer)
        ensures
            timer@ == self@.sound,
    {
        &self.sound_timer
    }

    /// The screen.
    pub fn screen(&self) -> (screen: &Screen)
        ensures
            screen@ == self@.pixels,
    {
        &self.screen
    }

    /// The keypad.
    pub fn keyboard(&self) -> (keyboard: &Keyboard)
        ensures
            keyboard@ == self@.key,
    {
        &self.keyboard
    }

    /// Moves the program counter on by one instruction, which is two bytes.
    fn increment_program_counter(&mut self)
        ensures
            final(self)@ == (Machine { pc: advanced(old(self)@.pc), ..old(self)@ }),
    {
        self.program_counter = self.program_counter.wrapping_add(2);
    }

    /// Where the engine goes on after an instruction that skips the next one
    /// when `skip` holds; `next` is where that one lies.
    fn skip(next: u16, skip: bool) -> (target: u16)
        ensures
            target == skipped(next, skip),
    {
        if skip {
            next.wrapping_add(2)
        } else {
            next
        }
    }

    /// The register `V[x]`.
    fn register(&self, x: u8) -> (value: u8)
        requires
            self@.well_formed(),
            x < 16,
        ensures
            value == self@.v[x as int],
    {
        self.v.read(x).unwrap()
    }

    /// Sets the register `V[x]`.
    fn set_register(&mut self, x: u8, value: u8)
        requires
            old(self)@.well_formed(),
            x < 16,
        ensures
            final(self)@ == (Machine { v: old(self)@.v.update(x as int, value), ..old(self)@ }),
    {
        self.v.write(x, value).unwrap();
    }

    /// Sets the flag register `VF` to 1 if `raised`, else to 0.
    fn set_flag(&mut self, raised: bool)
        requires
            old(self)@.well_formed(),
        ensures
            final(self)@ == (Machine { v: old(self)@.v.update(0xF, flag(raised)), ..old(self)@ }),
    {
        self.set_register(0xF, if raised {
            1
        } else {
            0
        });
    }
}

/// A byte from the random number generator of the calling thread:
/// `rand::thread_rng().gen::<u8>()`. Nothing is known of the byte. The
/// generator is seeded by the operating system when a thread first uses it,
/// and panics if the system gives it no seed.
#[verifier::external_body]
fn random_byte() -> u8 {
    rand::thread_rng().gen::<u8>()
}

} // verus!
