//! The memory-mapped devices of the board.
pub mod clint;
pub mod plic;
pub mod ram;
pub mod syscon;
pub mod uart;
