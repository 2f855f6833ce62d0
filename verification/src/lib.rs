//! A CHIP-8 virtual machine core: instruction decoder, display rasterizer and
//! interpreter, each with a machine-checked contract.

pub mod cpu;
pub mod gpu;
pub mod host;
pub mod text;
pub mod util;
