//! The instruction decode/execute core of a Game Boy–class 8-bit CPU: the
//! register file with its 8/16-bit overlays, the packed status flags, the
//! arithmetic/logic unit, the primary and CB-prefixed opcode tables, and the
//! stack and control-flow protocol, all over a flat 64 KiB address space.

pub mod alu;
pub mod cpu;
pub mod gameboy;
pub mod instructions;
pub mod mmu;
pub mod timer;
