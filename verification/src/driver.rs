//! One program run, from the loaded image to the halt.
//!
//! The processor and the video display processor are engines of their own.
//! The driver owns what lies between them: the memory image, the port
//! decoder's verdicts, the clock and the state of the run. Whoever holds the
//! engines reports what the processor did and is told what to do next.

use vstd::prelude::*;
use crate::bus::{MemoryAccess, PortIO};
use crate::disasm::{disassemble, listing_of, records_view, InstructionRecord};
use crate::memory::{fold_address, loaded_image, AddressSpace};
use crate::ports::{
    route, touches_vdp, PortAccess, PortRead, PortTarget, VdpCommand, UNMAPPED_READ,
};

verus! {

/// The state of a run.
#[derive(Debug, Clone, Copy, PartialEq, Eq, Structural)]
pub enum RunState {
    /// The image is loaded and nothing has run.
    Loaded,
    /// The processor is executing instructions.
    Running,
    /// The processor halted. The run is over.
    Halted,
    /// The processor stopped for another cause. The run is over.
    Faulted,
}

/// What happened, as reported to the driver.
#[derive(Debug, Clone, Copy, PartialEq, Eq, Structural)]
pub enum DriverEvent {
    /// The run is asked to begin.
    Start,
    /// The processor executed one instruction in this many clock cycles.
    Executed(u32),
    /// The processor executed a halt, in this many clock cycles.
    Halt(u32),
    /// The processor stopped for a cause other than a halt, after this many
    /// clock cycles.
    Break(u32),
}

/// What the driver asks for next.
#[derive(Debug, Clone, Copy, PartialEq, Eq, Structural)]
pub enum DriverAction {
    /// Put the processor into its initial state, then execute one
    /// instruction.
    ResetAndExecute,
    /// Execute one more instruction.
    Execute,
    /// Let the video display processor bring its frame up to date. The run
    /// has ended well and can be exported.
    FlushVideo,
    /// Report that the run failed. There is nothing to export.
    ReportFault,
    /// The event does not apply in this state. Nothing is to be done.
    Nothing,
}

/// Whether no event leads out of the state.
pub open spec fn is_terminal(state: RunState) -> bool {
    state == RunState::Halted || state == RunState::Faulted
}

/// The state and the action that follow an event.
pub open spec fn transition(state: RunState, event: DriverEvent) -> (RunState, DriverAction) {
    match (state, event) {
        (RunState::Loaded, DriverEvent::Start) => (RunState::Running, DriverAction::ResetAndExecute),
        (RunState::Running, DriverEvent::Executed(_)) => (RunState::Running, DriverAction::Execute),
        (RunState::Running, DriverEvent::Halt(_)) => (RunState::Halted, DriverAction::FlushVideo),
        (RunState::Running, DriverEvent::Break(_)) => (RunState::Faulted, DriverAction::ReportFault),
        _ => (state, DriverAction::Nothing),
    }
}

/// The clock cycles that an event adds to the clock of a run in `state`.
pub open spec fn cycles_of(state: RunState, event: DriverEvent) -> nat {
    match (state, event) {
        (RunState::Running, DriverEvent::Executed(n)) => n as nat,
        (RunState::Running, DriverEvent::Halt(n)) => n as nat,
        (RunState::Running, DriverEvent::Break(n)) => n as nat,
        _ => 0,
    }
}

/// The clock after `cycles` more cycles. It stops at the largest value it can
/// hold and never runs backwards.
pub open spec fn clock_after(clock: u64, cycles: nat) -> u64 {
    if clock + cycles > u64::MAX {
        u64::MAX
    } else {
        (clock + cycles) as u64
    }
}

/// A run as a plain value.
pub ghost struct RunView {
    /// The memory image.
    pub memory: Seq<u8>,
    /// The state of the run.
    pub state: RunState,
    /// The clock cycles counted so far.
    pub clock: u64,
    /// Whether the program has reached the video display processor.
    pub vdp_used: bool,
}

/// The run that follows `run` on `event`.
pub open spec fn run_after(run: RunView, event: DriverEvent) -> RunView {
    RunView {
        state: transition(run.state, event).0,
        clock: clock_after(run.clock, cycles_of(run.state, event)),
        ..run
    }
}

/// The driver of one run.
pub struct ExecutionDriver {
    memory: AddressSpace,
    state: RunState,
    clock: u64,
    vdp_used: bool,
}

impl View for ExecutionDriver {
    type V = RunView;

    closed spec fn view(&self) -> RunView {
        RunView {
            memory: self.memory@,
            state: self.state,
            clock: self.clock,
            vdp_used: self.vdp_used,
        }
    }
}

impl ExecutionDriver {
    /// A run of `program` in memory of `capacity` bytes: the program at
    /// address 0, the halt opcode behind it, the clock at 0, the video
    /// display processor unused.
    pub fn load(program: &[u8], capacity: usize) -> (driver: ExecutionDriver)
        requires
            program@.len() <= capacity,
        ensures
            driver@ == (RunView {
                memory: loaded_image(program@, capacity as nat),
                state: RunState::Loaded,
                clock: 0,
                vdp_used: false,
            }),
            driver@.memory.len() == capacity,
    {
        ExecutionDriver {
            memory: AddressSpace::load(program, capacity),
            state: RunState::Loaded,
            clock: 0,
            vdp_used: false,
        }
    }

    /// The state of the run.
    pub fn state(&self) -> (state: RunState)
        ensures
            state == self@.state,
    {
        self.state
    }

    /// The clock cycles counted so far.
    pub fn clock(&self) -> (clock: u64)
        ensures
            clock == self@.clock,
    {
        self.clock
    }

    /// Whether the program has reached the video display processor.
    pub fn vdp_used(&self) -> (used: bool)
        ensures
            used == self@.vdp_used,
    {
        self.vdp_used
    }

    /// The memory image.
    pub fn memory(&self) -> (memory: &AddressSpace)
        ensures
            memory@ == self@.memory,
    {
        &self.memory
    }

    /// The instruction listing of the memory image as it stands. Listing
    /// and running do not touch each other.
    pub fn disassemble(&self) -> (records: Vec<InstructionRecord>)
        ensures
            records_view(records@) == listing_of(self@.memory),
            records@.len() <= self@.memory.len(),
    {
        disassemble(&self.memory)
    }

    /// Takes an event and says what to do next. Memory and the mark of the
    /// video display processor stay as they are.
    pub fn advance(&mut self, event: DriverEvent) -> (action: DriverAction)
        ensures
            final(self)@ == run_after(old(self)@, event),
            action == transition(old(self)@.state, event).1,
    {
        let (next, action, cycles): (RunState, DriverAction, u32) = match (self.state, event) {
            (RunState::Loaded, DriverEvent::Start) => (
                RunState::Running,
                DriverAction::ResetAndExecute,
                0,
            ),
            (RunState::Running, DriverEvent::Executed(n)) => (
                RunState::Running,
                DriverAction::Execute,
                n,
            ),
            (RunState::Running, DriverEvent::Halt(n)) => (
                RunState::Halted,
                DriverAction::FlushVideo,
                n,
            ),
            (RunState::Running, DriverEvent::Break(n)) => (
                RunState::Faulted,
                DriverAction::ReportFault,
                n,
            ),
            (state, _) => (state, DriverAction::Nothing, 0),
        };
        self.state = next;
        self.clock = self.clock.saturating_add(cycles as u64);
        action
    }
}

impl MemoryAccess for ExecutionDriver {
    open spec fn image(&self) -> Seq<u8> {
        self@.memory
    }

    fn read_debug(&self, addr: u16) -> (value: u8) {
        self.memory.read_debug(addr)
    }

    /// Only memory changes: the state of the run, the clock and the mark of
    /// the video display processor stay as they are.
    fn write_mem(&mut self, addr: u16, value: u8)
        ensures
            final(self)@ == (RunView {
                memory: old(self)@.memory.update(
                    fold_address(addr, old(self)@.memory.len()),
                    value,
                ),
                ..old(self)@
            }),
    {
        self.memory.write_mem(addr, value);
    }
}

impl PortIO for ExecutionDriver {
    open spec fn video_used(&self) -> bool {
        self@.vdp_used
    }

    /// Only the mark of the video display processor can change.
    fn write_io(&mut self, port: u16, data: u8) -> (command: Option<VdpCommand>)
        ensures
            final(self)@ == (RunView {
                vdp_used: old(self)@.vdp_used || touches_vdp(PortAccess::Write { port, data }),
                ..old(self)@
            }),
    {
        match route(port) {
            PortTarget::Control => {
                self.vdp_used = true;
                Some(VdpCommand::WriteControl(data))
            },
            PortTarget::Data => {
                self.vdp_used = true;
                Some(VdpCommand::WriteData(data))
            },
            PortTarget::Unmapped => None,
        }
    }

    /// Only the mark of the video display processor can change.
    fn read_io(&mut self, port: u16) -> (source: PortRead)
        ensures
            final(self)@ == (RunView {
                vdp_used: old(self)@.vdp_used || touches_vdp(PortAccess::Read { port }),
                ..old(self)@
            }),
    {
        match route(port) {
            PortTarget::Data => {
                self.vdp_used = true;
                PortRead::VdpData
            },
            _ => PortRead::Fixed(UNMAPPED_READ),
        }
    }
}

/// The state after a run of events, and the actions that were asked for.
pub open spec fn trace(state: RunState, events: Seq<DriverEvent>) -> (RunState, Seq<DriverAction>)
    decreases events.len(),
{
    if events.len() == 0 {
        (state, Seq::empty())
    } else {
        let (next, action) = transition(state, events[0]);
        let (last, actions) = trace(next, events.drop_first());
        (last, seq![action] + actions)
    }
}

/// How often `action` occurs in `actions`.
pub open spec fn count_of(actions: Seq<DriverAction>, action: DriverAction) -> nat
    decreases actions.len(),
{
    if actions.len() == 0 {
        0
    } else {
        (if actions[0] == action { 1nat } else { 0nat }) + count_of(actions.drop_first(), action)
    }
}

/// A run that is over stays as it is: whatever is reported to it, its state
/// does not change and nothing is asked for.
pub proof fn terminal_states_absorb(state: RunState, events: Seq<DriverEvent>)
    requires
        is_terminal(state),
    ensures
        trace(state, events).0 == state,
        trace(state, events).1.len() == events.len(),
        forall|i: int| 0 <= i < events.len() ==> trace(state, events).1[i] == DriverAction::Nothing,
    decreases events.len(),
{
    if events.len() > 0 {
        terminal_states_absorb(state, events.drop_first());
    }
}

/// Whatever is reported to a run, the video display processor is asked to
/// bring its frame up to date at most once, and exactly once if the run
/// comes to a halt on the way.
pub proof fn video_flushed_once(state: RunState, events: Seq<DriverEvent>)
    ensures
        count_of(trace(state, events).1, DriverAction::FlushVideo) <= 1,
        state != RunState::Halted && trace(state, events).0 == RunState::Halted ==> count_of(
            trace(state, events).1,
            DriverAction::FlushVideo,
        ) == 1,
        is_terminal(state) ==> count_of(trace(state, events).1, DriverAction::FlushVideo) == 0,
        state == RunState::Halted ==> trace(state, events).0 == RunState::Halted,
        state == RunState::Faulted ==> trace(state, events).0 == RunState::Faulted,
    decreases events.len(),
{
    if events.len() > 0 {
        let (next, action) = transition(state, events[0]);
        let rest = events.drop_first();
        video_flushed_once(next, rest);
        let actions = seq![action] + trace(next, rest).1;
        assert(actions.drop_first() =~= trace(next, rest).1);
        assert(actions[0] == action);
    }
}

/// A run that halts on its first instruction is halted for good: whatever
/// is reported after the halt, it stays halted, and the video display
/// processor was asked for its frame once.
pub proof fn first_halt_is_final(cycles: u32, later: Seq<DriverEvent>)
    ensures
        trace(RunState::Loaded, seq![DriverEvent::Start, DriverEvent::Halt(cycles)] + later).0
            == RunState::Halted,
        count_of(
            trace(RunState::Loaded, seq![DriverEvent::Start, DriverEvent::Halt(cycles)] + later).1,
            DriverAction::FlushVideo,
        ) == 1,
{
    let events = seq![DriverEvent::Start, DriverEvent::Halt(cycles)] + later;
    let after_start = events.drop_first();
    assert(after_start.drop_first() =~= later);
    assert(events[0] == DriverEvent::Start);
    assert(after_start[0] == DriverEvent::Halt(cycles));
    terminal_states_absorb(RunState::Halted, later);
    video_flushed_once(RunState::Loaded, events);
    assert(trace(RunState::Running, after_start).0 == trace(RunState::Halted, later).0);
}

/// The clock never runs backwards.
pub proof fn clock_is_monotonic(run: RunView, event: DriverEvent)
    ensures
        run_after(run, event).clock >= run.clock,
{
}

} // verus!
