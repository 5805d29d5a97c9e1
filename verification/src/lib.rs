//! Register-level emulation of a 1980s home console's picture-processing
//! unit — its latched address port, VRAM mirroring and buffered data reads —
//! together with the cartridge-image loader that configures it.

pub mod cartridge;
pub mod ppu;
