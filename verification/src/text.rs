//! The register dump: the processor's and the video display processor's
//! registers as text, every number in hexadecimal at a fixed width.

use vstd::prelude::*;
use vstd::string::*;

verus! {

/// The registers of the processor that a dump shows.
#[derive(Debug, Clone, Copy, PartialEq, Eq, Structural)]
pub struct RegisterSnapshot {
    /// The accumulator.
    pub a: u8,
    /// The register pair BC.
    pub bc: u16,
    /// The register pair DE.
    pub de: u16,
    /// The register pair HL.
    pub hl: u16,
}

/// The number of registers of the video display processor.
pub const VDP_REGISTER_COUNT: usize = 8;

/// The hexadecimal digit of a number below 16, in lower case.
pub open spec fn hex_digit(n: u8) -> char
    recommends
        n < 16,
{
    if n < 10 {
        ((48 + n) as u8) as char
    } else {
        ((87 + n) as u8) as char
    }
}

/// A byte as text: `0x` and two digits.
pub open spec fn hex_byte(v: u8) -> Seq<char> {
    seq!['0', 'x', hex_digit(v / 16), hex_digit(v % 16)]
}

/// A 16-bit word as text: `0x` and four digits.
pub open spec fn hex_word(v: u16) -> Seq<char> {
    seq![
        '0',
        'x',
        hex_digit((v / 4096) as u8),
        hex_digit((v / 256 % 16) as u8),
        hex_digit((v / 16 % 16) as u8),
        hex_digit((v % 16) as u8),
    ]
}

/// The four lines of the processor's registers.
pub open spec fn cpu_text(registers: RegisterSnapshot) -> Seq<char> {
    "A: "@ + hex_byte(registers.a) + "\n"@
        + "BC: "@ + hex_word(registers.bc) + "\n"@
        + "DE: "@ + hex_word(registers.de) + "\n"@
        + "HL: "@ + hex_word(registers.hl) + "\n"@
}

/// The line of one register of the video display processor.
pub open spec fn vdp_line(index: u8, value: u8) -> Seq<char> {
    "VDP R"@ + seq![hex_digit(index)] + ": "@ + hex_byte(value) + "\n"@
}

/// The lines of the first `count` registers of the video display processor.
pub open spec fn vdp_text(registers: Seq<u8>, count: nat) -> Seq<char>
    recommends
        count <= registers.len(),
        count <= 16,
    decreases count,
{
    if count == 0 {
        Seq::empty()
    } else {
        vdp_text(registers, (count - 1) as nat) + vdp_line(
            (count - 1) as u8,
            registers[count - 1],
        )
    }
}

/// The whole register dump: the processor's registers, then those of the
/// video display processor.
pub open spec fn register_text(registers: RegisterSnapshot, vdp: Seq<u8>) -> Seq<char> {
    cpu_text(registers) + vdp_text(vdp, VDP_REGISTER_COUNT as nat)
}

/// `String::push` appends the character to the end of the string.
pub assume_specification[ String::push ](s: &mut String, c: char)
    ensures
        final(s)@ == old(s)@.push(c),
;

fn digit(n: u8) -> (c: char)
    requires
        n < 16,
    ensures
        c == hex_digit(n),
{
    if n < 10 {
        (48 + n) as char
    } else {
        (87 + n) as char
    }
}

fn push_byte(out: &mut String, v: u8)
    ensures
        final(out)@ == old(out)@ + hex_byte(v),
{
    out.push('0');
    out.push('x');
    out.push(digit(v / 16));
    out.push(digit(v % 16));
    assert(out@ =~= old(out)@ + hex_byte(v));
}

fn push_word(out: &mut String, v: u16)
    ensures
        final(out)@ == old(out)@ + hex_word(v),
{
    out.push('0');
    out.push('x');
    out.push(digit((v / 4096) as u8));
    out.push(digit((v / 256 % 16) as u8));
    out.push(digit((v / 16 % 16) as u8));
    out.push(digit((v % 16) as u8));
    assert(out@ =~= old(out)@ + hex_word(v));
}

/// Renders the register dump.
pub fn render_registers(registers: &RegisterSnapshot, vdp: &[u8; 8]) -> (text: String)
    ensures
        text@ == register_text(*registers, vdp@),
{
    let mut out = String::new();
    out.append("A: ");
    push_byte(&mut out, registers.a);
    out.append("\n");
    out.append("BC: ");
    push_word(&mut out, registers.bc);
    out.append("\n");
    out.append("DE: ");
    push_word(&mut out, registers.de);
    out.append("\n");
    out.append("HL: ");
    push_word(&mut out, registers.hl);
    out.append("\n");
    assert(out@ =~= cpu_text(*registers));
    let mut i: usize = 0;
    while i < VDP_REGISTER_COUNT
        invariant
            i <= VDP_REGISTER_COUNT,
            vdp@.len() == 8,
            out@ == cpu_text(*registers) + vdp_text(vdp@, i as nat),
        decreases VDP_REGISTER_COUNT - i,
    {
        let ghost before = out@;
        out.append("VDP R");
        out.push(digit(i as u8));
        out.append(": ");
        push_byte(&mut out, vdp[i]);
        out.append("\n");
        assert(out@ =~= before + vdp_line(i as u8, vdp@[i as int]));
        assert(out@ =~= cpu_text(*registers) + vdp_text(vdp@, (i + 1) as nat));
        i += 1;
    }
    out
}

} // verus!
