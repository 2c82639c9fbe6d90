use rybot2::bus::{MemoryAccess, PortIO};
use rybot2::driver::{DriverAction, DriverEvent, ExecutionDriver, RunState};

#[test]
fn a_loaded_run_has_not_begun() {
    let driver = ExecutionDriver::load(&[0x3e, 0x05, 0x76], 512);
    assert_eq!(driver.state(), RunState::Loaded);
    assert_eq!(driver.clock(), 0);
    assert!(!driver.vdp_used());
    assert_eq!(driver.memory().capacity(), 512);
    assert_eq!(driver.memory().to_vec()[..4], [0x3e, 0x05, 0x76, 0x76]);
}

#[test]
fn start_asks_for_reset_and_first_instruction() {
    let mut driver = ExecutionDriver::load(&[], 8);
    assert_eq!(driver.advance(DriverEvent::Start), DriverAction::ResetAndExecute);
    assert_eq!(driver.state(), RunState::Running);
}

#[test]
fn each_executed_instruction_asks_for_the_next() {
    let mut driver = ExecutionDriver::load(&[], 8);
    driver.advance(DriverEvent::Start);
    assert_eq!(driver.advance(DriverEvent::Executed(4)), DriverAction::Execute);
    assert_eq!(driver.advance(DriverEvent::Executed(7)), DriverAction::Execute);
    assert_eq!(driver.state(), RunState::Running);
    assert_eq!(driver.clock(), 11);
}

#[test]
fn halt_ends_the_run_and_flushes_video_once() {
    let mut driver = ExecutionDriver::load(&[], 8);
    driver.advance(DriverEvent::Start);
    assert_eq!(driver.advance(DriverEvent::Halt(4)), DriverAction::FlushVideo);
    assert_eq!(driver.state(), RunState::Halted);
    assert_eq!(driver.clock(), 4);
    assert_eq!(driver.advance(DriverEvent::Halt(4)), DriverAction::Nothing);
    assert_eq!(driver.advance(DriverEvent::Executed(4)), DriverAction::Nothing);
    assert_eq!(driver.advance(DriverEvent::Start), DriverAction::Nothing);
    assert_eq!(driver.state(), RunState::Halted);
    assert_eq!(driver.clock(), 4);
}

#[test]
fn any_other_break_is_a_fault() {
    let mut driver = ExecutionDriver::load(&[], 8);
    driver.advance(DriverEvent::Start);
    driver.advance(DriverEvent::Executed(10));
    assert_eq!(driver.advance(DriverEvent::Break(5)), DriverAction::ReportFault);
    assert_eq!(driver.state(), RunState::Faulted);
    assert_eq!(driver.clock(), 15);
    assert_eq!(driver.advance(DriverEvent::Halt(4)), DriverAction::Nothing);
    assert_eq!(driver.advance(DriverEvent::Start), DriverAction::Nothing);
    assert_eq!(driver.state(), RunState::Faulted);
    assert_eq!(driver.clock(), 15);
}

#[test]
fn events_before_start_are_ignored() {
    let mut driver = ExecutionDriver::load(&[], 8);
    assert_eq!(driver.advance(DriverEvent::Executed(4)), DriverAction::Nothing);
    assert_eq!(driver.advance(DriverEvent::Halt(4)), DriverAction::Nothing);
    assert_eq!(driver.advance(DriverEvent::Break(4)), DriverAction::Nothing);
    assert_eq!(driver.state(), RunState::Loaded);
    assert_eq!(driver.clock(), 0);
}

#[test]
fn a_second_start_is_ignored() {
    let mut driver = ExecutionDriver::load(&[], 8);
    driver.advance(DriverEvent::Start);
    driver.advance(DriverEvent::Executed(9));
    assert_eq!(driver.advance(DriverEvent::Start), DriverAction::Nothing);
    assert_eq!(driver.state(), RunState::Running);
    assert_eq!(driver.clock(), 9);
}

#[test]
fn the_clock_counts_the_largest_step() {
    let mut driver = ExecutionDriver::load(&[], 8);
    driver.advance(DriverEvent::Start);
    driver.advance(DriverEvent::Executed(u32::MAX));
    driver.advance(DriverEvent::Executed(u32::MAX));
    assert_eq!(driver.clock(), 2 * (u32::MAX as u64));
}

#[test]
fn memory_access_goes_through_the_driver() {
    let mut driver = ExecutionDriver::load(&[9, 8, 7], 512);
    assert_eq!(driver.read_debug(1), 8);
    assert_eq!(driver.read_debug(512 + 2), 7);
    driver.write_mem(600, 0x12);
    assert_eq!(driver.read_debug(88), 0x12);
    assert_eq!(driver.state(), RunState::Loaded);
    assert_eq!(driver.clock(), 0);
    assert!(!driver.vdp_used());
}

#[test]
fn advancing_leaves_memory_and_video_mark_alone() {
    let mut driver = ExecutionDriver::load(&[9, 8, 7], 4);
    driver.write_io(0xbf, 1);
    driver.advance(DriverEvent::Start);
    driver.advance(DriverEvent::Halt(4));
    assert!(driver.vdp_used());
    assert_eq!(driver.memory().to_vec(), vec![9, 8, 7, 0x76]);
}
