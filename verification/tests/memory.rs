use rybot2::bus::MemoryAccess;
use rybot2::memory::{AddressSpace, HALT_OPCODE};

#[test]
fn halt_opcode_is_0x76() {
    assert_eq!(HALT_OPCODE, 0x76);
}

#[test]
fn loaded_buffer_is_program_then_halts() {
    let program = [0x3e, 0x05, 0x76];
    let space = AddressSpace::load(&program, 512);
    let mut expected = vec![0x3e, 0x05, 0x76];
    expected.extend(std::iter::repeat(0x76).take(509));
    assert_eq!(space.capacity(), 512);
    assert_eq!(space.to_vec(), expected);
}

#[test]
fn loaded_buffer_keeps_program_bytes_that_are_not_halts() {
    let program = [0x00, 0x01, 0x02, 0xff];
    let space = AddressSpace::load(&program, 6);
    assert_eq!(space.to_vec(), vec![0x00, 0x01, 0x02, 0xff, 0x76, 0x76]);
}

#[test]
fn empty_program_loads_as_all_halts() {
    let space = AddressSpace::load(&[], 65536);
    assert_eq!(space.capacity(), 65536);
    assert!(space.to_vec().iter().all(|b| *b == 0x76));
}

#[test]
fn program_that_fills_memory_gets_no_padding() {
    let program = [1, 2, 3, 4];
    let space = AddressSpace::load(&program, 4);
    assert_eq!(space.to_vec(), vec![1, 2, 3, 4]);
}

#[test]
fn zero_capacity_holds_nothing() {
    let space = AddressSpace::load(&[], 0);
    assert_eq!(space.capacity(), 0);
    assert_eq!(space.to_vec(), Vec::<u8>::new());
}

#[test]
fn read_debug_reads_program_and_padding() {
    let space = AddressSpace::load(&[0x3e, 0x05], 512);
    assert_eq!(space.read_debug(0), 0x3e);
    assert_eq!(space.read_debug(1), 0x05);
    assert_eq!(space.read_debug(2), 0x76);
    assert_eq!(space.read_debug(511), 0x76);
}

#[test]
fn read_debug_folds_addresses_beyond_capacity() {
    let mut space = AddressSpace::load(&[0x11, 0x22, 0x33], 512);
    space.write_mem(511, 0x99);
    assert_eq!(space.read_debug(512), 0x11);
    assert_eq!(space.read_debug(513), 0x22);
    assert_eq!(space.read_debug(1026), 0x33);
    assert_eq!(space.read_debug(0xffff), 0x99);
}

#[test]
fn full_size_memory_uses_every_address() {
    let mut space = AddressSpace::load(&[0xaa], 65536);
    space.write_mem(0xffff, 0x42);
    assert_eq!(space.read_debug(0xffff), 0x42);
    assert_eq!(space.read_debug(0), 0xaa);
    assert_eq!(space.read_debug(0xfffe), 0x76);
}

#[test]
fn write_mem_changes_one_byte() {
    let mut space = AddressSpace::load(&[1, 2, 3], 8);
    space.write_mem(1, 0xee);
    assert_eq!(space.to_vec(), vec![1, 0xee, 3, 0x76, 0x76, 0x76, 0x76, 0x76]);
}

#[test]
fn write_mem_folds_addresses_beyond_capacity() {
    let mut space = AddressSpace::load(&[1, 2, 3], 8);
    space.write_mem(8 + 2, 0xee);
    space.write_mem(0xffff, 0xdd);
    assert_eq!(space.to_vec(), vec![1, 2, 0xee, 0x76, 0x76, 0x76, 0x76, 0xdd]);
}

#[test]
fn tail_is_the_rest_of_the_image() {
    let space = AddressSpace::load(&[1, 2, 3], 5);
    assert_eq!(space.tail(0), &[1, 2, 3, 0x76, 0x76]);
    assert_eq!(space.tail(3), &[0x76, 0x76]);
    assert_eq!(space.tail(5), &[] as &[u8]);
}
