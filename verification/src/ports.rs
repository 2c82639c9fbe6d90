//! The port decoder: which device an I/O port number selects.

use vstd::prelude::*;

verus! {

/// The port of the video display processor's data register.
pub const VDP_DATA_PORT: u8 = 0xBE;

/// The port of the video display processor's control register.
pub const VDP_CONTROL_PORT: u8 = 0xBF;

/// The byte that a read from a port without a device yields.
pub const UNMAPPED_READ: u8 = 0;

/// The device register behind a port.
#[derive(Debug, Clone, Copy, PartialEq, Eq, Structural)]
pub enum PortTarget {
    /// The video display processor's control register.
    Control,
    /// The video display processor's data register.
    Data,
    /// No device.
    Unmapped,
}

/// The low eight bits of a port number. Only they select a device.
pub open spec fn port_low(port: u16) -> u8 {
    (port % 0x100) as u8
}

/// The device register that `port` selects.
pub open spec fn route_spec(port: u16) -> PortTarget {
    if port_low(port) == VDP_CONTROL_PORT {
        PortTarget::Control
    } else if port_low(port) == VDP_DATA_PORT {
        PortTarget::Data
    } else {
        PortTarget::Unmapped
    }
}

/// Decodes a port number. The upper eight bits are ignored.
pub fn route(port: u16) -> (target: PortTarget)
    ensures
        target == route_spec(port),
{
    let low: u8 = (port & 0xff) as u8;
    assert(port & 0xff == port % 0x100) by (bit_vector);
    if low == VDP_CONTROL_PORT {
        PortTarget::Control
    } else if low == VDP_DATA_PORT {
        PortTarget::Data
    } else {
        PortTarget::Unmapped
    }
}

/// What a write to a port asks of the video display processor.
#[derive(Debug, Clone, Copy, PartialEq, Eq, Structural)]
pub enum VdpCommand {
    /// Hand the byte to the control register.
    WriteControl(u8),
    /// Hand the byte to the data register.
    WriteData(u8),
}

/// Where the byte of a port read comes from.
#[derive(Debug, Clone, Copy, PartialEq, Eq, Structural)]
pub enum PortRead {
    /// From the video display processor's data register.
    VdpData,
    /// No device answers: the read yields this byte.
    Fixed(u8),
}

/// What a write of `data` to `port` forwards: the byte to the control or the
/// data register of the video display processor, or nothing.
pub open spec fn write_command(port: u16, data: u8) -> Option<VdpCommand> {
    match route_spec(port) {
        PortTarget::Control => Some(VdpCommand::WriteControl(data)),
        PortTarget::Data => Some(VdpCommand::WriteData(data)),
        PortTarget::Unmapped => None,
    }
}

/// Where a read from `port` takes its byte. Only the data register can be
/// read; every other port yields the byte of an unmapped port.
pub open spec fn read_source(port: u16) -> PortRead {
    match route_spec(port) {
        PortTarget::Data => PortRead::VdpData,
        _ => PortRead::Fixed(UNMAPPED_READ),
    }
}

/// One access of the processor to a port.
pub ghost enum PortAccess {
    Write { port: u16, data: u8 },
    Read { port: u16 },
}

/// Whether the access reaches the video display processor.
pub open spec fn touches_vdp(access: PortAccess) -> bool {
    match access {
        PortAccess::Write { port, data } => write_command(port, data).is_some(),
        PortAccess::Read { port } => read_source(port) == PortRead::VdpData,
    }
}

/// Whether the video display processor counts as used after `accesses`, given
/// whether it did before.
pub open spec fn used_after(used: bool, accesses: Seq<PortAccess>) -> bool
    decreases accesses.len(),
{
    if accesses.len() == 0 {
        used
    } else {
        used_after(used || touches_vdp(accesses[0]), accesses.drop_first())
    }
}

/// Once used, always used.
pub proof fn used_stays_used(accesses: Seq<PortAccess>)
    ensures
        used_after(true, accesses),
    decreases accesses.len(),
{
    if accesses.len() > 0 {
        used_stays_used(accesses.drop_first());
    }
}

/// The video display processor counts as used after a run of port accesses
/// exactly if it did before or one of the accesses reached it. So a program
/// that touches neither of its ports leaves it unused.
pub proof fn used_iff_touched(used: bool, accesses: Seq<PortAccess>)
    ensures
        used_after(used, accesses) <==> (used || exists|i: int|
            0 <= i < accesses.len() && touches_vdp(#[trigger] accesses[i])),
    decreases accesses.len(),
{
    if accesses.len() > 0 {
        let rest = accesses.drop_first();
        used_iff_touched(used || touches_vdp(accesses[0]), rest);
        if used_after(used, accesses) && !used && !touches_vdp(accesses[0]) {
            let i = choose|i: int| 0 <= i < rest.len() && touches_vdp(#[trigger] rest[i]);
            assert(touches_vdp(accesses[i + 1]));
        }
        if exists|i: int| 0 <= i < accesses.len() && touches_vdp(#[trigger] accesses[i]) {
            let i = choose|i: int| 0 <= i < accesses.len() && touches_vdp(#[trigger] accesses[i]);
            if i > 0 {
                assert(touches_vdp(rest[i - 1]));
            }
        }
    }
}

} // verus!
