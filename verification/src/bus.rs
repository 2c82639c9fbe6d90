//! The two faces that a machine shows its processor: memory and ports.
//!
//! A processor needs nothing else of the machine it runs in. Whatever drives
//! it takes the machine by these two interfaces alone.

use vstd::prelude::*;
use vstd::arithmetic::div_mod::lemma_small_mod;
use crate::memory::fold_address;
use crate::ports::{read_source, touches_vdp, write_command, PortAccess, PortRead, VdpCommand};

verus! {

/// Access to the bytes of a memory image by 16-bit addresses.
pub trait MemoryAccess {
    /// The bytes of the image.
    spec fn image(&self) -> Seq<u8>;

    /// Reads the byte that `addr` selects. Nothing is counted or changed.
    fn read_debug(&self, addr: u16) -> (value: u8)
        requires
            self.image().len() > 0,
        ensures
            value == self.image()[fold_address(addr, self.image().len())],
    ;

    /// Stores `value` in the byte that `addr` selects and leaves every other
    /// byte as it was.
    fn write_mem(&mut self, addr: u16, value: u8)
        requires
            old(self).image().len() > 0,
        ensures
            final(self).image() == old(self).image().update(
                fold_address(addr, old(self).image().len()),
                value,
            ),
    ;
}

/// A byte that was written is the byte that is read back from the same
/// address, and from every address that selects the same byte. Every byte
/// that the address does not select is as it was.
pub proof fn written_byte_is_read_back(image: Seq<u8>, addr: u16, value: u8, other: u16)
    requires
        image.len() > 0,
    ensures
        image.update(fold_address(addr, image.len()), value)[fold_address(addr, image.len())]
            == value,
        fold_address(other, image.len()) != fold_address(addr, image.len()) ==> image.update(
            fold_address(addr, image.len()),
            value,
        )[fold_address(other, image.len())] == image[fold_address(other, image.len())],
        0 <= fold_address(addr, image.len()) < image.len(),
        addr < image.len() ==> fold_address(addr, image.len()) == addr,
{
    if addr < image.len() {
        lemma_small_mod(addr as nat, image.len());
    }
}

/// Access to the ports of the machine. No access stalls the processor or
/// breaks into its run.
pub trait PortIO {
    /// Whether the program has reached the video display processor.
    spec fn video_used(&self) -> bool;

    /// A write of `data` to `port`. Hands back what is to be forwarded to the
    /// video display processor, if anything, and marks it as used where the
    /// port is one of its two. A write to any other port does nothing.
    fn write_io(&mut self, port: u16, data: u8) -> (command: Option<VdpCommand>)
        ensures
            command == write_command(port, data),
            final(self).video_used() == (old(self).video_used() || touches_vdp(
                PortAccess::Write { port, data },
            )),
    ;

    /// A read from `port`. Says where the byte comes from, and marks the
    /// video display processor as used where it is its data register.
    fn read_io(&mut self, port: u16) -> (source: PortRead)
        ensures
            source == read_source(port),
            final(self).video_used() == (old(self).video_used() || touches_vdp(
                PortAccess::Read { port },
            )),
    ;
}

} // verus!
