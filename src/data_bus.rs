use vstd::prelude::*;

verus! {

/// The address space that the CPU reads and writes; memory and cartridge
/// types implement it.
pub trait DataBus: Sized {
    /// The byte that `read(addr)` returns in this state.
    spec fn read_spec(&self, addr: u16) -> u8;

    /// The state that `write(addr, byte)` leaves.
    spec fn write_spec(&self, addr: u16, byte: u8) -> Self;

    fn read(&self, addr: u16) -> (r: u8)
        ensures
            r == self.read_spec(addr),
    ;

    fn write(&mut self, addr: u16, byte: u8)
        ensures
            *final(self) == old(self).write_spec(addr, byte),
    ;
}

} // verus!
