//! A verified interpreter core for the MOS 6502 instruction set: registers,
//! status flags, a flat 64 KiB memory, an addressing-mode resolver, and a
//! fetch-decode-execute step that is proved to follow a mathematical model
//! of the processor, including cycle accounting with page-cross and branch
//! penalties.

pub mod cpu;
pub mod flags;
pub mod laws;
pub mod model;
pub mod op;
