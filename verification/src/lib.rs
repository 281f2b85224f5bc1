//! A verified interpreter for a small 8-bit virtual machine (the classic
//! CHIP-8 architecture): a fetch-decode-execute engine over a 4096-byte
//! memory image, sixteen 8-bit registers, an index register, a call stack,
//! a 64x32 monochrome framebuffer, and a decrementing delay timer.

pub mod cpu;
pub mod display;
pub mod opcode;
pub mod errors;
pub mod laws;
pub mod memory;
pub mod rng;
pub mod timer;
