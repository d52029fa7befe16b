use vstd::prelude::*;

use crate::data_bus::DataBus;

verus! {

/// The last address of the fixed ROM bank.
pub const ROM_BANK0_END: u16 = 0x3FFF;

/// What a read returns where nothing answers it.
pub const OPEN_BUS: u8 = 0xFF;

/// A cartridge with the MBC1 mapper. Only its fixed ROM bank is mapped: reads
/// beyond it, or beyond the ROM, see the open bus, and writes are ignored.
pub struct MBC1 {
    rom: Vec<u8>,
}

impl MBC1 {
    /// The bytes of the ROM image.
    pub closed spec fn rom(&self) -> Seq<u8> {
        self.rom@
    }

    pub fn new_boxed(rom: Vec<u8>) -> (r: Box<Self>)
        ensures
            r.rom() == rom@,
    {
        Box::new(Self { rom })
    }
}

impl DataBus for MBC1 {
    open spec fn read_spec(&self, addr: u16) -> u8 {
        if addr <= ROM_BANK0_END && addr < self.rom().len() {
            self.rom()[addr as int]
        } else {
            OPEN_BUS
        }
    }

    open spec fn write_spec(&self, addr: u16, byte: u8) -> Self {
        *self
    }

    fn read(&self, addr: u16) -> (r: u8) {
        if addr <= ROM_BANK0_END && (addr as usize) < self.rom.len() {
            self.rom[addr as usize]
        } else {
            OPEN_BUS
        }
    }

    fn write(&mut self, addr: u16, byte: u8) {
    }
}

} // verus!
