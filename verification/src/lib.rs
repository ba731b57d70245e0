//! The core of an emulator for the Nintendo Entertainment System: the 6502
//! processor, the picture processing unit, the bus between them with its
//! memory-mapped ports, the controller, cartridge images, a renderer and a
//! tracer.
//!
//! Every stateful part has a mathematical value as its view, and every
//! operation says what it makes of that value. The machine does no input or
//! output of its own: a host reads the cartridge, runs the machine one
//! instruction at a time with [`cpu::CPU::service_nmi`] and [`cpu::CPU::step`],
//! and shows a frame and updates the controller whenever a step reports that
//! the picture unit has raised its interrupt line.

#![allow(non_camel_case_types)]
#![allow(non_snake_case)]
#![allow(non_upper_case_globals)]
#![allow(unused_parens)]

pub mod bus;
pub mod cartridge;
pub mod cpu;
pub mod cpu_state;
pub mod flags;
pub mod frame;
pub mod instructions;
pub mod joypad;
pub mod laws;
pub mod mem;
pub mod opcodes;
pub mod palette;
pub mod ppu;
pub mod registers;
pub mod render;
pub mod trace;
