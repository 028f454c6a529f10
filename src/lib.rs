pub mod display;
pub mod instruction;
pub mod chip8;
pub mod laws;
