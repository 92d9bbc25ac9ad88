//! A small virtual machine core: a fetch-decode-execute engine with sixteen
//! 8-bit registers, a 4KB address space, a monochrome bitmap framebuffer,
//! two countdown timers, a 16-key input device, and a 16-level call stack.

use vstd::prelude::*;

pub mod bits;
pub mod cartridge;
pub mod font;
pub mod framebuffer;
pub mod laws;
pub mod machine;
pub mod processor;

verus! {

/// Display width in pixels; each framebuffer row is one 64-bit word.
pub const CHIP8_WIDTH: usize = 64;

/// Display height in rows.
pub const CHIP8_HEIGHT: usize = 32;

/// Size of the address space in bytes.
pub const CHIP8_RAM: usize = 4096;

} // verus!
