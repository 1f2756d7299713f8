use std::time::Duration;

use ftdi_nusb::constants::mpsse;
use ftdi_nusb::error::Error;
use ftdi_nusb::mpsse::{
    clock_command, clock_divisor_command, command_with_flush, finish_with_cleanup, init_command,
    scan_sync_response, MpsseContext, MpsseRequest,
};
use ftdi_nusb::{ChipType, FtdiDevice};

fn device(chip: ChipType, id: u64) -> FtdiDevice {
    FtdiDevice::new(chip, id, Duration::from_millis(500))
}

#[test]
fn div_value_saturates_for_low_rates() {
    assert_eq!(mpsse::div_value(92), 65216);
    assert_eq!(mpsse::div_value(91), 0xFFFF);
    assert_eq!(mpsse::div_value(1), 0xFFFF);
    assert_eq!(mpsse::div_value(6_000_001), 0);
}

#[test]
fn clock_command_exact_values() {
    assert_eq!(
        clock_command(false, 1_000_000).unwrap(),
        (vec![mpsse::TCK_DIVISOR, 5, 0], 1_000_000)
    );
    assert_eq!(
        clock_command(true, 10_000_000).unwrap(),
        (vec![mpsse::DIS_DIV_5, mpsse::TCK_DIVISOR, 2, 0], 10_000_000)
    );
    assert_eq!(
        clock_command(true, 1_000_000).unwrap(),
        (vec![mpsse::EN_DIV_5, mpsse::TCK_DIVISOR, 5, 0], 1_000_000)
    );
    // 5 MHz is not reachable from 12 MHz: the nearest divisor gives 6 MHz.
    assert_eq!(
        clock_command(false, 5_000_000).unwrap(),
        (vec![mpsse::TCK_DIVISOR, 0, 0], 6_000_000)
    );
    // A very low clock clamps the divisor register to 0xFFFF.
    assert_eq!(
        clock_command(false, 50).unwrap(),
        (vec![mpsse::TCK_DIVISOR, 0xFF, 0xFF], 91)
    );
}

#[test]
fn clock_command_errors() {
    match clock_command(true, 0) {
        Err(Error::InvalidArgument(msg)) => assert_eq!(msg, "clock frequency must be > 0"),
        other => panic!("unexpected {:?}", other),
    }
    match clock_command(false, 6_000_001) {
        Err(Error::InvalidArgument(msg)) => {
            assert_eq!(msg, "clock frequency exceeds maximum for this chip")
        }
        other => panic!("unexpected {:?}", other),
    }
    assert!(clock_command(true, 30_000_000).is_ok());
    assert!(clock_command(true, 30_000_001).is_err());
}

#[test]
fn clock_divisor_command_error_message() {
    match clock_divisor_command(false, 0) {
        Err(Error::InvalidArgument(msg)) => {
            assert_eq!(msg, "clock divisor must be even and at least 2")
        }
        other => panic!("unexpected {:?}", other),
    }
    assert_eq!(
        clock_divisor_command(false, 0x1000).unwrap(),
        (vec![mpsse::TCK_DIVISOR, 0xFF, 0x07], 2929)
    );
}

#[test]
fn init_validation() {
    let mut dev = device(ChipType::Ft232R, 1);
    assert!(matches!(
        MpsseContext::validate_init(&dev),
        Err(Error::UnsupportedChip(ChipType::Ft232R))
    ));
    dev.mark_recovery_required();
    assert!(matches!(MpsseContext::validate_init(&dev), Err(Error::RecoveryRequired)));
    let dev = device(ChipType::Ft2232C, 2);
    assert!(MpsseContext::validate_init(&dev).is_ok());
    let ctx = MpsseContext::for_device(&dev);
    assert!(!ctx.is_h_type());
    assert_eq!(ctx.clock_hz(), 0);
    assert_eq!(init_command(true), vec![mpsse::LOOPBACK_END, mpsse::DIS_ADAPTIVE]);
    assert_eq!(init_command(false), vec![mpsse::LOOPBACK_END]);
}

#[test]
fn session_binds_context_to_its_device() {
    let mut dev = device(ChipType::Ft232H, 7);
    let mut other = device(ChipType::Ft232H, 8);
    let mut ctx = MpsseContext::for_device(&dev);
    assert!(ctx.session(&mut dev).is_ok());
    assert!(matches!(ctx.session(&mut other), Err(Error::InvalidMpsseContext)));
    dev.complete_recovery();
    assert!(matches!(ctx.session(&mut dev), Err(Error::InvalidMpsseContext)));
    assert!(matches!(ctx.ensure_current(&dev), Err(Error::InvalidMpsseContext)));
    let mut fresh = MpsseContext::for_device(&dev);
    assert!(fresh.session(&mut dev).is_ok());
}

#[test]
fn recovery_state_of_device() {
    let mut dev = device(ChipType::Ft2232H, 3);
    assert!(dev.ensure_ready().is_ok());
    dev.mark_recovery_required();
    assert!(dev.recovery_required());
    assert!(matches!(dev.ensure_ready(), Err(Error::RecoveryRequired)));
    let epoch = dev.recovery_epoch();
    dev.complete_recovery();
    assert!(dev.ensure_ready().is_ok());
    assert_eq!(dev.recovery_epoch(), epoch + 1);
    dev.bump_recovery_epoch();
    assert_eq!(dev.recovery_epoch(), epoch + 2);
    dev.set_read_timeout(Duration::from_secs(3));
    assert_eq!(dev.read_timeout(), Duration::from_secs(3));
    assert_eq!(dev.device_id(), 3);
    assert_eq!(dev.chip_type(), ChipType::Ft2232H);
}

#[test]
fn session_requests_and_effects() {
    let mut dev = device(ChipType::Ft232H, 11);
    let mut ctx = MpsseContext::for_device(&dev);
    {
        let mut s = ctx.session(&mut dev).unwrap();
        let req = MpsseRequest::SetGpioLow { value: 0x08, direction: 0x0B };
        let x = s.prepare(req).unwrap();
        assert_eq!(x.command, vec![mpsse::SET_BITS_LOW, 0x08, 0x0B]);
        assert_eq!(x.read_len, 0);
        s.complete(req);
        assert_eq!(s.ctx().gpio_low_value(), 0x08);
        assert_eq!(s.ctx().gpio_low_dir(), 0x0B);

        let req = MpsseRequest::SetGpioHigh { value: 0x01, direction: 0x03 };
        s.complete(req);
        assert_eq!(s.ctx().gpio_high_value(), 0x01);
        assert_eq!(s.ctx().gpio_high_dir(), 0x03);

        let x = s.prepare(MpsseRequest::GetGpioHigh).unwrap();
        assert_eq!(x.command, vec![mpsse::GET_BITS_HIGH, mpsse::SEND_IMMEDIATE]);
        assert_eq!(x.read_len, 1);

        let x = s.prepare(MpsseRequest::ReleasePins).unwrap();
        assert_eq!(x.command, vec![0x80, 0, 0, 0x82, 0, 0]);
        s.complete(MpsseRequest::ReleasePins);
        assert_eq!(s.ctx().gpio_low_dir(), 0);
        assert_eq!(s.ctx().gpio_high_value(), 0);

        let x = s.prepare(MpsseRequest::SetClock(10_000_000)).unwrap();
        assert_eq!(x.command, vec![mpsse::DIS_DIV_5, mpsse::TCK_DIVISOR, 2, 0]);
        s.complete(MpsseRequest::SetClock(10_000_000));
        assert_eq!(s.ctx().clock_hz(), 10_000_000);

        s.complete(MpsseRequest::SetClockDivisor(4));
        assert_eq!(s.ctx().clock_hz(), 15_000_000);

        assert_eq!(s.protocol_epoch(), 0);
        let x = s.prepare(MpsseRequest::Enable3Phase).unwrap();
        assert_eq!(x.command, vec![mpsse::EN_3_PHASE]);
        s.complete(MpsseRequest::Enable3Phase);
        assert_eq!(s.protocol_epoch(), 1);

        let x = s.prepare(MpsseRequest::Synchronize).unwrap();
        assert_eq!(x.command, vec![0xAB, mpsse::SEND_IMMEDIATE]);
        let x = s.prepare(MpsseRequest::EnableLoopback).unwrap();
        assert_eq!(x.command, vec![mpsse::LOOPBACK_START]);
        assert_eq!(s.device().device_id(), 11);
    }
    assert_eq!(ctx.clock_hz(), 15_000_000);
}

#[test]
fn three_phase_needs_h_type() {
    let mut dev = device(ChipType::Ft2232C, 12);
    let mut ctx = MpsseContext::for_device(&dev);
    let mut s = ctx.session(&mut dev).unwrap();
    match s.prepare(MpsseRequest::Disable3Phase) {
        Err(Error::InvalidArgument(msg)) => {
            assert_eq!(msg, "3-phase clocking only supported on H-type chips")
        }
        other => panic!("unexpected {:?}", other),
    }
    s.complete(MpsseRequest::Disable3Phase);
    assert_eq!(s.protocol_epoch(), 0);
    assert!(s.prepare(MpsseRequest::SetClock(7_000_000)).is_err());
    s.complete(MpsseRequest::SetClock(7_000_000));
    assert_eq!(s.ctx().clock_hz(), 0);
}

#[test]
fn sync_scan_across_chunks() {
    assert_eq!(scan_sync_response(false, &[0x32, 0x60, 0xFA, 0xAB]), (true, true));
    let (found, carry) = scan_sync_response(false, &[0x00, 0xFA]);
    assert!(!found);
    assert!(carry);
    assert!(scan_sync_response(carry, &[0xAB]).0);
    assert_eq!(scan_sync_response(false, &[0xAB, 0xFA]), (false, true));
    assert_eq!(scan_sync_response(true, &[]), (false, true));
}

#[test]
fn raw_command_gets_flush() {
    assert_eq!(command_with_flush(&[0x81]), vec![0x81, mpsse::SEND_IMMEDIATE]);
    assert_eq!(command_with_flush(&[]), vec![mpsse::SEND_IMMEDIATE]);
}

#[test]
fn cleanup_error_order() {
    let op: ftdi_nusb::Result<u8> = Err(Error::WriteZero);
    assert!(matches!(finish_with_cleanup(op, Err(Error::ShortWrite)), Err(Error::WriteZero)));
    let op: ftdi_nusb::Result<u8> = Ok(5);
    assert!(matches!(finish_with_cleanup(op, Err(Error::ShortWrite)), Err(Error::ShortWrite)));
    let op: ftdi_nusb::Result<u8> = Ok(5);
    assert_eq!(finish_with_cleanup(op, Ok(())).unwrap(), 5);
}
