use rybot2::disasm::{disassemble, listing_text, Disassembler, InstructionRecord};
use rybot2::driver::ExecutionDriver;
use rybot2::memory::AddressSpace;

fn record(address: u16, code: &[u8], text: &str) -> InstructionRecord {
    InstructionRecord { address, code: code.to_vec(), text: text.to_string() }
}

#[test]
fn listing_of_load_and_halt() {
    let space = AddressSpace::load(&[0x3e, 0x05, 0x76], 512);
    let records = disassemble(&space);
    assert_eq!(
        records,
        vec![
            record(0, &[0x3e, 0x05], "0000h LD   A, 05h         [3e, 05]"),
            record(2, &[0x76], "0002h HALT                [76]"),
            record(3, &[0x76], "0003h HALT                [76]"),
        ]
    );
}

#[test]
fn listing_text_has_one_line_per_record() {
    let space = AddressSpace::load(&[0x3e, 0x05, 0x76], 512);
    let records = disassemble(&space);
    assert_eq!(
        listing_text(&records),
        "0000h LD   A, 05h         [3e, 05]\n0002h HALT                [76]\n0003h HALT                [76]\n"
    );
    assert_eq!(listing_text(&Vec::new()), "");
}

#[test]
fn listing_of_all_halts_is_two_records() {
    for capacity in [2usize, 512, 65536] {
        let space = AddressSpace::load(&[], capacity);
        let records = disassemble(&space);
        assert_eq!(records.len(), 2);
        assert_eq!(records[0], record(0, &[0x76], "0000h HALT                [76]"));
        assert_eq!(records[1], record(1, &[0x76], "0001h HALT                [76]"));
    }
}

#[test]
fn listing_of_one_byte_of_memory() {
    let space = AddressSpace::load(&[], 1);
    let records = disassemble(&space);
    assert_eq!(records, vec![record(0, &[0x76], "0000h HALT                [76]")]);
}

#[test]
fn listing_of_empty_memory_is_empty() {
    let space = AddressSpace::load(&[], 0);
    assert!(disassemble(&space).is_empty());
}

#[test]
fn a_single_halt_does_not_end_the_listing() {
    let space = AddressSpace::load(&[0x76, 0x00, 0x76, 0x00, 0x76, 0x76, 0x00], 16);
    let records = disassemble(&space);
    let codes: Vec<Vec<u8>> = records.iter().map(|r| r.code.clone()).collect();
    assert_eq!(
        codes,
        vec![vec![0x76], vec![0x00], vec![0x76], vec![0x00], vec![0x76], vec![0x76]]
    );
    let addresses: Vec<u16> = records.iter().map(|r| r.address).collect();
    assert_eq!(addresses, vec![0, 1, 2, 3, 4, 5]);
}

#[test]
fn a_program_without_halts_is_listed_to_the_end_of_memory() {
    let space = AddressSpace::load(&[0x00, 0x00, 0x00, 0x00], 4);
    let records = disassemble(&space);
    assert_eq!(records.len(), 4);
    assert_eq!(records[3], record(3, &[0x00], "0003h NOP                 [00]"));
}

#[test]
fn an_instruction_cut_off_by_the_end_of_memory_ends_the_listing() {
    let space = AddressSpace::load(&[0x00, 0x3e], 2);
    let records = disassemble(&space);
    assert_eq!(records, vec![record(0, &[0x00], "0000h NOP                 [00]")]);
    let space = AddressSpace::load(&[0x3e], 1);
    assert!(disassemble(&space).is_empty());
}

#[test]
fn overridden_prefixes_are_passed_over() {
    let program = [0xdd, 0xfd, 0xdd, 0x09, 0x01, 0x34, 0x12, 0xd3, 0xbf, 0x18, 0xfe];
    let space = AddressSpace::load(&program, 16);
    let records = disassemble(&space);
    assert_eq!(
        records,
        vec![
            record(2, &[0xdd, 0x09], "0002h ADD  IX, BC         [dd, 09]"),
            record(4, &[0x01, 0x34, 0x12], "0004h LD   BC, 1234h      [01, 34, 12]"),
            record(7, &[0xd3, 0xbf], "0007h OUT  (bfh), A       [d3, bf]"),
            record(9, &[0x18, 0xfe], "0009h JR   0009h          [18, fe]"),
            record(11, &[0x76], "000bh HALT                [76]"),
            record(12, &[0x76], "000ch HALT                [76]"),
        ]
    );
}

#[test]
fn memory_of_prefixes_alone_has_no_listing() {
    let space = AddressSpace::load(&[0xdd, 0xdd], 2);
    assert!(disassemble(&space).is_empty());
}

#[test]
fn listing_never_has_more_records_than_capacity_plus_one() {
    let programs: [&[u8]; 5] = [
        &[],
        &[0x00, 0x00, 0x00, 0x00, 0x00, 0x00, 0x00, 0x00],
        &[0x3e, 0x05, 0x76],
        &[0x76, 0x00, 0x76, 0x00, 0x76, 0x00, 0x76, 0x00],
        &[0xdd, 0xfd, 0xdd, 0xfd, 0xdd, 0xfd, 0xdd, 0x00],
    ];
    for program in programs {
        for capacity in [8usize, 9, 64, 512] {
            let space = AddressSpace::load(program, capacity);
            let records = disassemble(&space);
            assert!(records.len() <= capacity + 1);
            assert!(records.len() <= capacity);
        }
    }
}

#[test]
fn addresses_wrap_behind_64k() {
    let program = vec![0u8; 65540];
    let space = AddressSpace::load(&program, 65540);
    let records = disassemble(&space);
    assert_eq!(records.len(), 65540);
    assert_eq!(records[65535].address, 0xffff);
    assert_eq!(records[65536].address, 0);
    assert_eq!(records[65539], record(3, &[0x00], "0003h NOP                 [00]"));
}

#[test]
fn records_come_one_by_one_and_then_no_more() {
    let space = AddressSpace::load(&[0x3e, 0x05], 512);
    let mut listing = Disassembler::new();
    assert_eq!(listing.cursor(), 0);
    assert!(!listing.is_finished());
    assert_eq!(listing.next_record(&space).map(|r| r.code), Some(vec![0x3e, 0x05]));
    assert_eq!(listing.cursor(), 2);
    assert_eq!(listing.next_record(&space).map(|r| r.code), Some(vec![0x76]));
    assert!(!listing.is_finished());
    assert_eq!(listing.next_record(&space).map(|r| r.code), Some(vec![0x76]));
    assert!(listing.is_finished());
    assert_eq!(listing.cursor(), 4);
    assert_eq!(listing.next_record(&space), None);
    assert_eq!(listing.next_record(&space), None);
    assert_eq!(listing.cursor(), 4);
}

#[test]
fn accept_takes_a_record_and_moves_behind_it() {
    let mut listing = Disassembler::new();
    let given = record(0, &[0x01, 0x34, 0x12], "LD BC");
    assert_eq!(listing.accept(16, Some(given.clone())), Some(given));
    assert_eq!(listing.cursor(), 3);
    assert!(!listing.is_finished());
}

#[test]
fn accept_counts_the_bytes_before_the_record() {
    let mut listing = Disassembler::new();
    let given = record(2, &[0xdd, 0x09], "ADD IX, BC");
    assert_eq!(listing.accept(16, Some(given.clone())), Some(given));
    assert_eq!(listing.cursor(), 4);
}

#[test]
fn accept_ends_on_the_second_halt_in_a_row() {
    let mut listing = Disassembler::new();
    assert!(listing.accept(16, Some(record(0, &[0x76], "HALT"))).is_some());
    assert!(!listing.is_finished());
    assert!(listing.accept(16, Some(record(1, &[0x00], "NOP"))).is_some());
    assert!(listing.accept(16, Some(record(2, &[0x76], "HALT"))).is_some());
    assert!(!listing.is_finished());
    assert!(listing.accept(16, Some(record(3, &[0x76], "HALT"))).is_some());
    assert!(listing.is_finished());
    assert_eq!(listing.cursor(), 4);
    assert_eq!(listing.accept(16, Some(record(4, &[0x00], "NOP"))), None);
    assert_eq!(listing.cursor(), 4);
}

#[test]
fn a_halt_of_two_bytes_is_no_halt_marker() {
    let mut listing = Disassembler::new();
    assert!(listing.accept(16, Some(record(0, &[0xdd, 0x76], "HALT"))).is_some());
    assert!(listing.accept(16, Some(record(2, &[0xdd, 0x76], "HALT"))).is_some());
    assert!(!listing.is_finished());
    assert_eq!(listing.cursor(), 4);
}

#[test]
fn accept_ends_without_a_record() {
    let mut listing = Disassembler::new();
    assert_eq!(listing.accept(16, None), None);
    assert!(listing.is_finished());
    assert_eq!(listing.cursor(), 0);
    assert_eq!(listing.accept(16, Some(record(0, &[0x00], "NOP"))), None);
}

#[test]
fn accept_refuses_a_record_that_reaches_beyond_memory() {
    let mut listing = Disassembler::new();
    assert_eq!(listing.accept(2, Some(record(0, &[0x01, 0x34, 0x12], "LD BC"))), None);
    assert!(listing.is_finished());
    let mut listing = Disassembler::new();
    assert_eq!(listing.accept(4, Some(record(3, &[0xdd, 0x09], "ADD"))), None);
    assert!(listing.is_finished());
    let mut listing = Disassembler::new();
    assert_eq!(listing.accept(4, Some(record(0xffff, &[0x00], "NOP"))), None);
    assert!(listing.is_finished());
}

#[test]
fn accept_refuses_an_empty_record() {
    let mut listing = Disassembler::new();
    assert_eq!(listing.accept(4, Some(record(0, &[], ""))), None);
    assert!(listing.is_finished());
}

#[test]
fn accept_ends_at_the_end_of_memory() {
    let mut listing = Disassembler::new();
    assert!(listing.accept(1, Some(record(0, &[0x00], "NOP"))).is_some());
    assert!(!listing.is_finished());
    assert_eq!(listing.accept(1, Some(record(1, &[0x00], "NOP"))), None);
    assert!(listing.is_finished());
    let mut listing = Disassembler::new();
    assert_eq!(listing.accept(0, Some(record(0, &[0x00], "NOP"))), None);
    assert!(listing.is_finished());
}

#[test]
fn listing_does_not_disturb_the_run() {
    let driver = ExecutionDriver::load(&[0x3e, 0x05, 0x76], 512);
    let before = driver.memory().to_vec();
    let records = driver.disassemble();
    assert_eq!(records.len(), 3);
    assert_eq!(driver.memory().to_vec(), before);
    assert_eq!(driver.clock(), 0);
}

#[test]
fn every_opcode_pair_is_listed_within_bounds() {
    let mut program = [0u8, 0, 0x12, 0x34, 0x56, 0x76, 0x76, 0x76];
    for first in 0u16..=255 {
        for second in 0u16..=255 {
            program[0] = first as u8;
            program[1] = second as u8;
            let space = AddressSpace::load(&program, 8);
            let records = disassemble(&space);
            assert!(records.len() <= 8);
            let mut behind = 0usize;
            for r in &records {
                assert!(!r.code.is_empty());
                assert!(r.address as usize >= behind);
                behind = r.address as usize + r.code.len();
                assert!(behind <= 8);
                assert_eq!(&space.to_vec()[r.address as usize..behind], &r.code[..]);
            }
        }
    }
}

#[test]
fn every_indexed_bit_instruction_is_listed_within_bounds() {
    for prefix in [0xddu8, 0xfd] {
        for offset in [0x00u8, 0x7f, 0x80, 0xff] {
            for opcode in 0u16..=255 {
                let program = [prefix, 0xcb, offset, opcode as u8, 0x76, 0x76];
                let space = AddressSpace::load(&program, 6);
                let records = disassemble(&space);
                assert_eq!(records[0].address, 0);
                assert_eq!(records[0].code, program[..4].to_vec());
                assert_eq!(records.len(), 3);
            }
        }
    }
}
