//! The instruction listing of a memory image.
//!
//! Instructions are decoded one after another from address 0. The listing
//! ends after the second of two single-byte halt instructions in a row, so
//! that the halt padding behind a program adds two lines and not thousands.
//! It also ends, with what was decoded so far, where the decoder finds no
//! instruction.

use vstd::prelude::*;
use vstd::string::*;
use crate::memory::{AddressSpace, HALT_OPCODE};

verus! {

/// One decoded instruction.
#[derive(Debug, Clone, PartialEq, Eq)]
pub struct InstructionRecord {
    /// The address of the instruction's first byte.
    pub address: u16,
    /// The bytes that make up the instruction.
    pub code: Vec<u8>,
    /// The instruction as one line of assembler text, numbers in hexadecimal.
    pub text: String,
}

/// An instruction record as a plain value.
pub ghost struct RecordView {
    pub address: u16,
    pub code: Seq<u8>,
    pub text: Seq<char>,
}

impl View for InstructionRecord {
    type V = RecordView;

    open spec fn view(&self) -> RecordView {
        RecordView { address: self.address, code: self.code@, text: self.text@ }
    }
}

/// The plain value of a record that may be absent.
pub open spec fn option_view(record: Option<InstructionRecord>) -> Option<RecordView> {
    match record {
        Some(r) => Some(r@),
        None => None,
    }
}

/// The plain values of a sequence of records.
pub open spec fn records_view(records: Seq<InstructionRecord>) -> Seq<RecordView> {
    records.map_values(|r: InstructionRecord| r@)
}

/// What the Z80 decoder finds in `chunk` when the chunk's first byte lies at
/// address `pc`: the first instruction that is complete in the chunk, or
/// nothing.
pub uninterp spec fn z80_decode(pc: u16, chunk: Seq<u8>) -> Option<RecordView>;

/// Calls `z80emu::disasm::disasm_memory_once` for the NMOS Z80 on `chunk`,
/// with `pc` as the address of the chunk's first byte.
///
/// The contract claims one thing: the answer depends on `pc` and on the
/// bytes of `chunk` and on nothing else. The record's address and code are
/// copied from the decoder's answer, and its text is the decoder's own
/// lower-case hexadecimal rendering of that answer.
#[verifier::external_body]
fn decode_one(pc: u16, chunk: &[u8]) -> (found: Option<InstructionRecord>)
    ensures
        option_view(found) == z80_decode(pc, chunk@),
{
    let found = z80emu::disasm::disasm_memory_once::<z80emu::Z80NMOS>(pc, chunk);
    found.map(|deb| InstructionRecord {
        address: deb.pc,
        code: deb.code.to_vec(),
        text: format!("{:x}", deb),
    })
}

/// Where a listing stands.
pub ghost struct ListingState {
    /// The index of the next byte to decode.
    pub cursor: nat,
    /// How many single-byte halts ended the listing so far: 0, 1 or 2.
    pub halt_streak: nat,
    /// Whether the listing has ended.
    pub finished: bool,
}

/// The state of a listing of which nothing was decoded yet.
pub open spec fn listing_start() -> ListingState {
    ListingState { cursor: 0, halt_streak: 0, finished: false }
}

/// The same place in a listing that has ended.
pub open spec fn ended(state: ListingState) -> ListingState {
    ListingState { finished: true, ..state }
}

/// The 16-bit address of the byte at index `cursor`.
pub open spec fn cursor_pc(cursor: nat) -> u16 {
    (cursor % 0x1_0000) as u16
}

/// The number of bytes between the place where decoding began, `pc`, and the
/// address that the record bears. The decoder passes over prefix bytes that a
/// later prefix overrides and reports the instruction behind them.
pub open spec fn prefix_gap(pc: u16, address: u16) -> nat {
    ((address - pc) % 0x1_0000) as nat
}

/// Whether the record is a halt instruction of one byte.
pub open spec fn is_halt_record(record: RecordView) -> bool {
    record.code.len() == 1 && record.code[0] == HALT_OPCODE
}

/// The halt streak after one more record.
pub open spec fn next_streak(streak: nat, halt: bool) -> nat {
    if !halt {
        0
    } else if streak == 0 {
        1
    } else {
        2
    }
}

/// What one answer of the decoder does to a listing over memory of `capacity`
/// bytes: the state that follows and the record that joins the listing.
///
/// Nothing joins, and the listing ends, where it had ended before, where the
/// cursor has reached the end of memory, where the decoder found nothing, and
/// where its answer is empty or reaches beyond the end of memory. Otherwise
/// the record joins, the cursor moves behind it, and the listing ends if the
/// record is the second single-byte halt in a row.
pub open spec fn accept_spec(
    state: ListingState,
    capacity: nat,
    decoded: Option<RecordView>,
) -> (ListingState, Option<RecordView>) {
    if state.finished || state.cursor >= capacity {
        (ended(state), None)
    } else {
        match decoded {
            None => (ended(state), None),
            Some(record) => {
                let used = prefix_gap(cursor_pc(state.cursor), record.address) + record.code.len();
                if record.code.len() == 0 || state.cursor + used > capacity {
                    (ended(state), None)
                } else {
                    let streak = next_streak(state.halt_streak, is_halt_record(record));
                    (
                        ListingState {
                            cursor: state.cursor + used,
                            halt_streak: streak,
                            finished: streak >= 2,
                        },
                        Some(record),
                    )
                }
            },
        }
    }
}

/// What the decoder is asked at `state`: the bytes from the cursor to the end
/// of memory, at the cursor's address.
pub open spec fn decoded_at(state: ListingState, memory: Seq<u8>) -> Option<RecordView> {
    if state.finished || state.cursor >= memory.len() {
        None
    } else {
        z80_decode(
            cursor_pc(state.cursor),
            memory.subrange(state.cursor as int, memory.len() as int),
        )
    }
}

/// One step of a listing of `memory`.
pub open spec fn next_spec(state: ListingState, memory: Seq<u8>) -> (
    ListingState,
    Option<RecordView>,
) {
    accept_spec(state, memory.len(), decoded_at(state, memory))
}

/// The number of bytes a listing at `state` can still decode.
pub open spec fn bytes_left(state: ListingState, memory: Seq<u8>) -> nat {
    if state.finished || state.cursor >= memory.len() {
        0
    } else {
        (memory.len() - state.cursor) as nat
    }
}

/// The records that a listing of `memory` yields from `state` on.
pub open spec fn listing_from(state: ListingState, memory: Seq<u8>) -> Seq<RecordView>
    decreases bytes_left(state, memory),
{
    let (next, record) = next_spec(state, memory);
    match record {
        None => Seq::empty(),
        Some(r) => seq![r] + listing_from(next, memory),
    }
}

/// The whole listing of `memory`.
pub open spec fn listing_of(memory: Seq<u8>) -> Seq<RecordView> {
    listing_from(listing_start(), memory)
}

/// A step that yields a record leaves fewer bytes to decode.
pub proof fn lemma_step_advances(state: ListingState, memory: Seq<u8>)
    requires
        next_spec(state, memory).1.is_some(),
    ensures
        bytes_left(next_spec(state, memory).0, memory) < bytes_left(state, memory),
        next_spec(state, memory).0.cursor <= memory.len(),
        state.cursor < next_spec(state, memory).0.cursor,
{
}

/// A listing holds at most one record for each byte that is left to decode.
pub proof fn listing_is_bounded(state: ListingState, memory: Seq<u8>)
    ensures
        listing_from(state, memory).len() <= bytes_left(state, memory),
    decreases bytes_left(state, memory),
{
    let (next, record) = next_spec(state, memory);
    if record.is_some() {
        lemma_step_advances(state, memory);
        listing_is_bounded(next, memory);
    }
}

/// The listing of a memory image holds no more records than the image holds
/// bytes, and so never more than one beyond its capacity.
pub proof fn whole_listing_is_bounded(memory: Seq<u8>)
    ensures
        listing_of(memory).len() <= memory.len(),
        listing_of(memory).len() <= memory.len() + 1,
{
    listing_is_bounded(listing_start(), memory);
}

/// Two single-byte halts in a row end a listing: wherever a listing holds
/// them side by side, they are its last two records. A listing that begins
/// behind a halt ends with its first record if that is a halt too.
pub proof fn listing_stops_at_double_halt(state: ListingState, memory: Seq<u8>)
    ensures
        state.halt_streak >= 1 && listing_from(state, memory).len() > 0 && is_halt_record(
            listing_from(state, memory)[0],
        ) ==> listing_from(state, memory).len() == 1,
        forall|i: int|
            0 <= i && i + 1 < listing_from(state, memory).len() && is_halt_record(
                listing_from(state, memory)[i],
            ) && is_halt_record(#[trigger] listing_from(state, memory)[i + 1]) ==> i + 2
                == listing_from(state, memory).len(),
    decreases bytes_left(state, memory),
{
    let (next, record) = next_spec(state, memory);
    if let Some(r) = record {
        lemma_step_advances(state, memory);
        listing_stops_at_double_halt(next, memory);
        let tail = listing_from(next, memory);
        let all = listing_from(state, memory);
        assert(all =~= seq![r] + tail);
        assert forall|i: int|
            0 <= i && i + 1 < all.len() && is_halt_record(all[i]) && is_halt_record(
                #[trigger] all[i + 1],
            ) implies i + 2 == all.len() by {
            if i == 0 {
                assert(all[1] == tail[0]);
            } else {
                assert(all[i] == tail[i - 1]);
                assert(all[i + 1] == tail[i - 1 + 1]);
            }
        }
    }
}

/// A listing, as it is produced record by record. Once it has ended it
/// yields nothing more; there is no way to start it again.
pub struct Disassembler {
    cursor: usize,
    halt_streak: u8,
    finished: bool,
}

impl View for Disassembler {
    type V = ListingState;

    closed spec fn view(&self) -> ListingState {
        ListingState {
            cursor: self.cursor as nat,
            halt_streak: self.halt_streak as nat,
            finished: self.finished,
        }
    }
}

impl Disassembler {
    /// A listing that starts at address 0.
    pub fn new() -> (d: Disassembler)
        ensures
            d@ == listing_start(),
    {
        Disassembler { cursor: 0, halt_streak: 0, finished: false }
    }

    /// Whether the listing has ended.
    pub fn is_finished(&self) -> (done: bool)
        ensures
            done == self@.finished,
    {
        self.finished
    }

    /// The index of the next byte to decode.
    pub fn cursor(&self) -> (at: usize)
        ensures
            at == self@.cursor,
    {
        self.cursor
    }

    /// Takes the decoder's answer for the bytes at the cursor, in memory of
    /// `capacity` bytes, and hands back the record that joins the listing.
    pub fn accept(&mut self, capacity: usize, decoded: Option<InstructionRecord>) -> (record:
        Option<InstructionRecord>)
        ensures
            (final(self)@, option_view(record)) == accept_spec(
                old(self)@,
                capacity as nat,
                option_view(decoded),
            ),
    {
        if self.finished || self.cursor >= capacity {
            self.finished = true;
            return None;
        }
        let found = match decoded {
            None => {
                self.finished = true;
                return None;
            },
            Some(found) => found,
        };
        let pc: u16 = (self.cursor % 0x1_0000) as u16;
        let gap: usize = if found.address >= pc {
            (found.address - pc) as usize
        } else {
            0x1_0000 - (pc - found.address) as usize
        };
        let length: usize = found.code.len();
        let room: usize = capacity - self.cursor;
        if length == 0 || gap > room || length > room - gap {
            self.finished = true;
            return None;
        }
        let halt: bool = length == 1 && found.code[0] == HALT_OPCODE;
        let streak: u8 = if !halt {
            0
        } else if self.halt_streak == 0 {
            1
        } else {
            2
        };
        self.cursor = self.cursor + gap + length;
        self.halt_streak = streak;
        self.finished = streak >= 2;
        Some(found)
    }

    /// Decodes the next instruction of `memory` and hands back its record, or
    /// nothing where the listing has ended.
    pub fn next_record(&mut self, memory: &AddressSpace) -> (record: Option<InstructionRecord>)
        ensures
            (final(self)@, option_view(record)) == next_spec(old(self)@, memory@),
    {
        let capacity: usize = memory.capacity();
        let decoded = if self.finished || self.cursor >= capacity {
            None
        } else {
            let pc: u16 = (self.cursor % 0x1_0000) as u16;
            decode_one(pc, memory.tail(self.cursor))
        };
        self.accept(capacity, decoded)
    }
}

/// The listing of `memory`, from address 0 to the place where it ends.
pub fn disassemble(memory: &AddressSpace) -> (records: Vec<InstructionRecord>)
    ensures
        records_view(records@) == listing_of(memory@),
        records@.len() <= memory@.len(),
{
    let mut listing = Disassembler::new();
    let mut records: Vec<InstructionRecord> = Vec::new();
    assert(records_view(records@) =~= Seq::empty());
    loop
        invariant
            records_view(records@) + listing_from(listing@, memory@) == listing_of(memory@),
            records@.len() + bytes_left(listing@, memory@) <= memory@.len(),
        decreases bytes_left(listing@, memory@),
    {
        let ghost before = listing@;
        let ghost so_far = records@;
        match listing.next_record(memory) {
            None => {
                assert(listing_from(before, memory@) =~= Seq::empty());
                assert(records_view(records@) =~= listing_of(memory@));
                return records;
            },
            Some(record) => {
                proof {
                    lemma_step_advances(before, memory@);
                }
                records.push(record);
                assert(records_view(records@) =~= records_view(so_far) + seq![record@]);
                assert(records_view(records@) + listing_from(listing@, memory@)
                    =~= records_view(so_far) + listing_from(before, memory@));
            },
        }
    }
}

/// The text of a listing: one line for each record, each ended by a line
/// feed.
pub open spec fn listing_text_of(records: Seq<RecordView>) -> Seq<char>
    decreases records.len(),
{
    if records.len() == 0 {
        Seq::empty()
    } else {
        listing_text_of(records.drop_last()) + records.last().text + "\n"@
    }
}

/// Renders a listing as text.
pub fn listing_text(records: &Vec<InstructionRecord>) -> (text: String)
    ensures
        text@ == listing_text_of(records_view(records@)),
{
    let mut out = String::new();
    let mut i: usize = 0;
    while i < records.len()
        invariant
            i <= records@.len(),
            out@ == listing_text_of(records_view(records@.take(i as int))),
        decreases records@.len() - i,
    {
        out.append(records[i].text.as_str());
        out.append("\n");
        proof {
            let done = records_view(records@.take(i + 1));
            assert(done.drop_last() =~= records_view(records@.take(i as int)));
            assert(done.last() == records@[i as int]@);
        }
        i += 1;
    }
    assert(records@.take(records@.len() as int) =~= records@);
    out
}

} // verus!
