use vstd::prelude::*;

pub mod cart;
pub mod cpu;
pub mod joypad;
pub mod laws;
pub mod mapper;
pub mod mirroring;
pub mod mmu;
pub mod nes;
pub mod opcodes;
pub mod palette;
pub mod ppu;
pub mod render;

verus! {

} // verus!
