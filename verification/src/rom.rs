use vstd::prelude::*;

pub use crate::nes::cartridge::rom::Mirroring;

verus! {

/// The contents of a cartridge image: program and character memory, mapper number and
/// nametable mirroring.
pub struct Rom {
    pub prg_rom: Vec<u8>,
    pub chr_rom: Vec<u8>,
    pub mapper: u8,
    pub screen_mirroring: Mirroring,
}

impl Rom {
    /// An image with no program or character memory.
    pub fn empty() -> (r: Rom)
        ensures
            r.prg_rom@.len() == 0,
            r.chr_rom@.len() == 0,
            r.mapper == 0,
            r.screen_mirroring == Mirroring::Vertical,
    {
        Rom { prg_rom: Vec::new(), chr_rom: Vec::new(), mapper: 0, screen_mirroring: Mirroring::Vertical }
    }

    /// An image built from its parts.
    pub fn new_custom(prg_rom: Vec<u8>, chr_rom: Vec<u8>, mapper: u8, screen_mirroring: Mirroring) -> (r: Rom)
        ensures
            r.prg_rom@ == prg_rom@,
            r.chr_rom@ == chr_rom@,
            r.mapper == mapper,
            r.screen_mirroring == screen_mirroring,
    {
        Rom { prg_rom, chr_rom, mapper, screen_mirroring }
    }
}

} // verus!
