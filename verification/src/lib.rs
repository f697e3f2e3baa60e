//! An emulator core for a handheld game console: the CPU, the picture
//! generator, the timer and the bus that binds them, with the laws that the
//! hardware obeys stated and proved.

pub mod fault;
pub mod cartridge;
pub mod gameboy;
pub mod cpu;
pub mod ppu;
pub mod frame;
pub mod timer;
pub mod joypad;
pub mod screen;
pub mod debug;
pub mod debug_info;
pub mod registers;
pub mod bess;
pub mod config;
pub mod utils;
pub mod laws;
