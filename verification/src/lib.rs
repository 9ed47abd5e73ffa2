//! Core of a cycle-budgeted emulator for a little-endian MIPS R3000A-class
//! console: CPU interpreter with COP0 exceptions and load/branch delay slots,
//! an interconnect dispatching loads and stores over the physical address map,
//! a seven-channel DMA engine, and the supporting devices (interrupt
//! aggregator, timers, CD-ROM front-end, GPU command port, joypad serial).

pub mod addressible;
pub mod fault;
pub mod instruction;
pub mod interrupts;
pub mod bios;
pub mod dma;
pub mod ram;
pub mod scratchpad;
pub mod timer;
pub mod joypad;
pub mod cdrom;
pub mod command;
pub mod primitive;
pub mod gpu;
pub mod interconnect;
pub mod gte;
pub mod cpu;
pub mod ps;
