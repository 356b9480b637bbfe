//! A CHIP-8 virtual machine: the memory, the registers, the call stack, the
//! screen, the keypad and the timers, and the engine that runs programs on
//! them.
//!
//! The library holds the state of the machine and every rule by which it
//! changes. It reads no clock and starts no thread: the program around it
//! calls [`cpu::CPU::cycle`] at the pace that [`cpu::CPU::clock_wait`] gives,
//! ticks the timers sixty times a second, and hands in what the keyboard
//! reports.

pub mod alu;
pub mod cpu;
pub mod io;
pub mod keyboard;
pub mod machine;
pub mod opcode;
pub mod ram;
pub mod registers;
pub mod screen;
pub mod timer;
