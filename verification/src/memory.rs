//! The memory image of one program run.

use vstd::prelude::*;
use vstd::slice::slice_subrange;
use crate::bus::MemoryAccess;

verus! {

/// The opcode on which the processor stops fetching. Every byte of the image
/// that the program does not cover holds it, so a program that runs off its
/// own end stops there.
pub const HALT_OPCODE: u8 = 0x76;

/// What memory of `capacity` bytes holds once `program` is loaded: the program
/// from address 0 on, then the halt opcode up to the end.
pub open spec fn loaded_image(program: Seq<u8>, capacity: nat) -> Seq<u8>
    recommends
        program.len() <= capacity,
{
    program + Seq::new((capacity - program.len()) as nat, |i: int| HALT_OPCODE)
}

/// The index of the byte that a 16-bit address selects in memory of
/// `capacity` bytes: the address itself where it fits, else the address
/// folded into the image.
pub open spec fn fold_address(addr: u16, capacity: nat) -> int
    recommends
        capacity > 0,
{
    (addr as int) % (capacity as int)
}

/// A block of memory of fixed size, owned by one run.
pub struct AddressSpace {
    bytes: Vec<u8>,
}

impl View for AddressSpace {
    type V = Seq<u8>;

    closed spec fn view(&self) -> Seq<u8> {
        self.bytes@
    }
}

impl AddressSpace {
    /// Builds the image of `capacity` bytes that holds `program` at address 0
    /// and the halt opcode everywhere else.
    pub fn load(program: &[u8], capacity: usize) -> (space: AddressSpace)
        requires
            program@.len() <= capacity,
        ensures
            space@ == loaded_image(program@, capacity as nat),
            space@.len() == capacity,
    {
        let mut bytes: Vec<u8> = Vec::with_capacity(capacity);
        let mut i: usize = 0;
        while i < program.len()
            invariant
                i <= program@.len(),
                bytes@ == program@.subrange(0, i as int),
            decreases program@.len() - i,
        {
            bytes.push(program[i]);
            assert(bytes@ =~= program@.subrange(0, i + 1));
            i += 1;
        }
        assert(bytes@ =~= program@);
        while i < capacity
            invariant
                program@.len() <= i <= capacity,
                bytes@ == loaded_image(program@, i as nat),
            decreases capacity - i,
        {
            bytes.push(HALT_OPCODE);
            assert(bytes@ =~= loaded_image(program@, (i + 1) as nat));
            i += 1;
        }
        AddressSpace { bytes }
    }

    /// The number of bytes the image holds.
    pub fn capacity(&self) -> (n: usize)
        ensures
            n == self@.len(),
    {
        self.bytes.len()
    }

    /// The bytes from index `from` to the end of the image.
    pub fn tail(&self, from: usize) -> (bytes: &[u8])
        requires
            from <= self@.len(),
        ensures
            bytes@ == self@.subrange(from as int, self@.len() as int),
    {
        slice_subrange(self.bytes.as_slice(), from, self.bytes.len())
    }

    /// A copy of the whole image, byte for byte.
    pub fn to_vec(&self) -> (bytes: Vec<u8>)
        ensures
            bytes@ == self@,
    {
        self.bytes.clone()
    }
}

impl MemoryAccess for AddressSpace {
    open spec fn image(&self) -> Seq<u8> {
        self@
    }

    fn read_debug(&self, addr: u16) -> (value: u8) {
        let index: usize = (addr as usize) % self.bytes.len();
        self.bytes[index]
    }

    fn write_mem(&mut self, addr: u16, value: u8) {
        let index: usize = (addr as usize) % self.bytes.len();
        self.bytes.set(index, value);
    }
}

} // verus!
