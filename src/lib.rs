//! A CHIP-8 interpreter core: fetches big-endian 16-bit opcodes from a
//! 4096-byte memory, decodes them and executes them against sixteen 8-bit
//! registers, an index register, a sixteen-entry call stack and a 64 x 32
//! monochrome display.
//!
//! `cpu` holds the machine and its abstract view, `instruction` the decoder,
//! `display` the pixel grid and sprite drawing, `rng` the seeded random byte
//! source, and `laws` properties proved of the instruction semantics.

pub mod cpu;
pub mod display;
pub mod instruction;
pub mod laws;
pub mod rng;
