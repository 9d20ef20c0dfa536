//! Runtime for a classic polygon-based adventure engine: a cooperative
//! bytecode virtual machine, a banked resource catalog with an LZ-style
//! reverse decompressor, and a video sequencer that turns bytecode commands
//! into abstract raster commands for a pluggable rasterizer.

pub mod error;
pub mod decompress;
pub mod executor;
pub mod gfx;
pub mod input;
pub mod resources;
pub mod video;
pub mod vm;

pub use executor::Executor;
pub use gfx::Gfx;
pub use input::Input;
pub use resources::{Io, Resources};
pub use video::Video;
pub use vm::Vm;

use vstd::prelude::*;

verus! {

/// Big-endian byte-pair value, the base of every multi-byte read.
pub open spec fn be_u16(hi: u8, lo: u8) -> u16 {
    ((hi as u16) * 256 + (lo as u16)) as u16
}

} // verus!
