use std::time::Duration;

use ftdi_nusb::error::Error;
use ftdi_nusb::mpsse::jtag::{
    decode_tdo, idle_path, pack_bits, reset_path, run_tms_exec, shift_command, shift_dr_path,
    shift_ir_path, tms_command, unpack_bits, JtagBus, TapState,
};
use ftdi_nusb::mpsse::{MpsseContext, MpsseRequest};
use ftdi_nusb::{ChipType, FtdiDevice};

fn device(id: u64) -> FtdiDevice {
    FtdiDevice::new(ChipType::Ft232H, id, Duration::from_millis(100))
}

const ALL: [TapState; 16] = [
    TapState::TestLogicReset,
    TapState::RunTestIdle,
    TapState::SelectDrScan,
    TapState::CaptureDr,
    TapState::ShiftDr,
    TapState::Exit1Dr,
    TapState::PauseDr,
    TapState::Exit2Dr,
    TapState::UpdateDr,
    TapState::SelectIrScan,
    TapState::CaptureIr,
    TapState::ShiftIr,
    TapState::Exit1Ir,
    TapState::PauseIr,
    TapState::Exit2Ir,
    TapState::UpdateIr,
];

#[test]
fn navigation_reaches_its_target_from_every_state() {
    for s in ALL {
        assert_eq!(run_tms_exec(s, &reset_path()), TapState::TestLogicReset);
        assert_eq!(run_tms_exec(s, &idle_path(s)), TapState::RunTestIdle);
        assert_eq!(run_tms_exec(s, &shift_dr_path(s)), TapState::ShiftDr);
        assert_eq!(run_tms_exec(s, &shift_ir_path(s)), TapState::ShiftIr);
    }
    assert_eq!(idle_path(TapState::SelectIrScan), vec![false, true, true, false]);
    assert_eq!(shift_dr_path(TapState::PauseDr), vec![true, false]);
}

#[test]
fn tms_commands_chunk_by_seven() {
    assert_eq!(tms_command(&[true; 5]), vec![0x4B, 0x04, 0x1F]);
    let nine = [true, false, true, false, false, false, true, true, true];
    assert_eq!(tms_command(&nine), vec![0x4B, 0x06, 0x45, 0x4B, 0x01, 0x03]);
    assert!(tms_command(&[]).is_empty());
}

#[test]
fn shift_commands_and_decoding() {
    let (cmd, n) = shift_command(&[true, false, true], true);
    assert_eq!(cmd, vec![0x3B, 0x01, 0x01, 0x6B, 0x00, 0x81, 0x87]);
    assert_eq!(n, 2);
    let (cmd, n) = shift_command(&[true; 9], false);
    assert_eq!(cmd, vec![0x3B, 0x07, 0xFF, 0x3B, 0x00, 0x01, 0x87]);
    assert_eq!(n, 2);
    assert_eq!(decode_tdo(3, true, &[0x40, 0x80]), vec![true, false, true]);
    assert_eq!(decode_tdo(9, false, &[0x81, 0x80]), vec![true, false, false, false, false, false, false, true, true]);
}

#[test]
fn bit_packing() {
    assert_eq!(unpack_bits(&[0x05], 3).unwrap(), vec![true, false, true]);
    assert_eq!(unpack_bits(&[0x05, 0x01], 9).unwrap().len(), 9);
    match unpack_bits(&[0x05], 9) {
        Err(Error::InvalidArgument(m)) => assert_eq!(m, "not enough data for the bit count"),
        other => panic!("unexpected {:?}", other),
    }
    assert_eq!(pack_bits(&[true, false, true]), vec![0x05]);
    assert_eq!(pack_bits(&[true; 9]), vec![0xFF, 0x01]);
}

#[test]
fn bus_tracks_the_tap() {
    let mut dev = device(50);
    let mut ctx = MpsseContext::for_device(&dev);
    let mut s = ctx.session(&mut dev).unwrap();
    let (mut bus, setup) = JtagBus::configure(&mut s);
    assert_eq!(setup, MpsseRequest::SetGpioLow { value: 0x08, direction: 0x0B });
    assert_eq!(s.protocol_epoch(), 1);
    assert_eq!(bus.state(), TapState::TestLogicReset);
    assert_eq!(bus.tms_pin(), 0x08);
    assert_eq!(bus.dir_mask(), 0x0B);
    assert_eq!(bus.reset(&s).unwrap(), vec![0x4B, 0x04, 0x1F]);
    assert!(matches!(
        bus.shift(&s, &[true], true),
        Err(Error::InvalidArgument("TAP is not in Shift-DR or Shift-IR"))
    ));
    assert_eq!(bus.goto_shift_ir(&s).unwrap(), vec![0x4B, 0x04, 0x06]);
    assert_eq!(bus.state(), TapState::ShiftIr);
    assert!(matches!(bus.shift(&s, &[], true), Err(Error::InvalidArgument("nothing to shift"))));
    let (_, n) = bus.shift(&s, &[true, false, false, false], true).unwrap();
    assert_eq!(n, 2);
    assert_eq!(bus.state(), TapState::Exit1Ir);
    assert_eq!(bus.goto_idle(&s).unwrap(), vec![0x4B, 0x01, 0x01]);
    assert_eq!(bus.state(), TapState::RunTestIdle);
    assert_eq!(bus.idle_clocks(&s, 3).unwrap(), vec![0x4B, 0x02, 0x00]);
    assert_eq!(bus.state(), TapState::RunTestIdle);
    s.bump_protocol_epoch();
    assert!(matches!(bus.goto_shift_dr(&s), Err(Error::InvalidMpsseContext)));
    assert_eq!(bus.state(), TapState::RunTestIdle);
}
