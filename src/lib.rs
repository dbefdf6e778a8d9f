//! A CHIP-8 virtual machine whose behaviour is stated in contracts and
//! proved with Verus: memory, return stack, registers, timers, the display
//! with its sprite blit and phosphor compositing, the keypad latch, the
//! opcode decoder and executor, and the CPU driver.

pub mod constants;
pub mod fault;
pub mod memory;
pub mod reg;
pub mod timer;
pub mod settings;
pub mod display;
pub mod input;
pub mod font;
pub mod cpu;
pub mod opcodes;
pub mod recording;
pub mod emulator;
