use rybot2::bus::PortIO;
use rybot2::driver::ExecutionDriver;
use rybot2::ports::{
    route, PortRead, PortTarget, VdpCommand, UNMAPPED_READ, VDP_CONTROL_PORT, VDP_DATA_PORT,
};

#[test]
fn the_two_video_ports_are_decoded() {
    assert_eq!(route(VDP_CONTROL_PORT as u16), PortTarget::Control);
    assert_eq!(route(VDP_DATA_PORT as u16), PortTarget::Data);
    assert_eq!(route(0x00bf), PortTarget::Control);
    assert_eq!(route(0x00be), PortTarget::Data);
}

#[test]
fn only_the_low_eight_bits_of_a_port_count() {
    assert_eq!(route(0x12bf), PortTarget::Control);
    assert_eq!(route(0xffbe), PortTarget::Data);
    assert_eq!(route(0xbf00), PortTarget::Unmapped);
    assert_eq!(route(0xbe01), PortTarget::Unmapped);
}

#[test]
fn every_other_port_is_unmapped() {
    for port in 0u16..=0xff {
        let expected = if port == 0xbf {
            PortTarget::Control
        } else if port == 0xbe {
            PortTarget::Data
        } else {
            PortTarget::Unmapped
        };
        assert_eq!(route(port), expected);
        assert_eq!(route(port | 0x5500), expected);
    }
}

#[test]
fn write_to_control_port_is_forwarded_and_marks_video_used() {
    let mut driver = ExecutionDriver::load(&[], 16);
    assert!(!driver.vdp_used());
    assert_eq!(driver.write_io(0x07bf, 0x5a), Some(VdpCommand::WriteControl(0x5a)));
    assert!(driver.vdp_used());
}

#[test]
fn write_to_data_port_is_forwarded_and_marks_video_used() {
    let mut driver = ExecutionDriver::load(&[], 16);
    assert_eq!(driver.write_io(0x00be, 0xa5), Some(VdpCommand::WriteData(0xa5)));
    assert!(driver.vdp_used());
}

#[test]
fn write_to_unmapped_port_does_nothing() {
    let mut driver = ExecutionDriver::load(&[1, 2], 16);
    assert_eq!(driver.write_io(0x0010, 0xff), None);
    assert_eq!(driver.write_io(0xbf00, 0xff), None);
    assert!(!driver.vdp_used());
    assert_eq!(driver.memory().to_vec()[..3], [1, 2, 0x76]);
}

#[test]
fn read_from_data_port_comes_from_video_and_marks_it_used() {
    let mut driver = ExecutionDriver::load(&[], 16);
    assert_eq!(driver.read_io(0x33be), PortRead::VdpData);
    assert!(driver.vdp_used());
}

#[test]
fn read_from_any_other_port_yields_zero() {
    let mut driver = ExecutionDriver::load(&[], 16);
    assert_eq!(UNMAPPED_READ, 0);
    assert_eq!(driver.read_io(0x00bf), PortRead::Fixed(0));
    assert_eq!(driver.read_io(0x0000), PortRead::Fixed(0));
    assert_eq!(driver.read_io(0xbe00), PortRead::Fixed(0));
    assert!(!driver.vdp_used());
}

#[test]
fn video_stays_used_once_it_was_touched() {
    let mut driver = ExecutionDriver::load(&[], 16);
    driver.write_io(0xbf, 1);
    driver.write_io(0x10, 1);
    driver.read_io(0x20);
    assert!(driver.vdp_used());
}
