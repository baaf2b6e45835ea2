//! Verified core of the Skyarch processor: register maps, condition flags,
//! instruction decoding and validation, and the per-instruction step
//! function that the surrounding emulator drives.
pub mod except;
pub mod regs;
pub mod intr;
pub mod instr;
pub mod cpu;
