//! Cycle-counting emulator core for an 8088-class CPU and a handful of the
//! peripheral chips that sit on its bus.

pub mod cpu;
pub mod devices;
pub mod io;
pub mod text;
