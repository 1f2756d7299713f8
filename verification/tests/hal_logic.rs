use std::time::Duration;

use ftdi_nusb::error::{Error, TransferError};
use ftdi_nusb::hal::{
    i2c_error_kind, i2c_transaction_plan, io_error_kind, str_contains, FtdiI2c, FtdiSpiDevice,
    I2cAction, I2cErrorKind, I2cOperation, IoErrorKind,
};
use ftdi_nusb::mpsse::i2c::I2cBus;
use ftdi_nusb::mpsse::spi::{SpiDevice, SpiMode};
use ftdi_nusb::mpsse::MpsseContext;
use ftdi_nusb::{ChipType, FtdiDevice};

#[test]
fn i2c_write_then_read_uses_repeated_start() {
    let ops = vec![I2cOperation::Write(vec![0x00]), I2cOperation::Read(2)];
    let plan = i2c_transaction_plan(0x48, &ops).unwrap();
    assert_eq!(
        plan,
        vec![
            I2cAction::Start,
            I2cAction::WriteAddress(0x90),
            I2cAction::WriteData(0x00),
            I2cAction::Start,
            I2cAction::WriteAddress(0x91),
            I2cAction::ReadByte { ack: true },
            I2cAction::ReadByte { ack: false },
            I2cAction::Stop,
        ]
    );
}

#[test]
fn i2c_same_direction_runs_share_one_start() {
    let ops = vec![
        I2cOperation::Read(1),
        I2cOperation::Read(0),
        I2cOperation::Read(1),
    ];
    let plan = i2c_transaction_plan(0x7F, &ops).unwrap();
    assert_eq!(
        plan,
        vec![
            I2cAction::Start,
            I2cAction::WriteAddress(0xFF),
            I2cAction::ReadByte { ack: true },
            I2cAction::ReadByte { ack: false },
            I2cAction::Stop,
        ]
    );
}

#[test]
fn i2c_plan_edge_cases() {
    match i2c_transaction_plan(0x80, &[I2cOperation::Read(1)]) {
        Err(Error::InvalidArgument(m)) => assert_eq!(m, "I2C address must be 7-bit (0x00..=0x7F)"),
        other => panic!("unexpected {:?}", other),
    }
    assert!(i2c_transaction_plan(0x10, &[]).unwrap().is_empty());
}

#[test]
fn nack_errors_and_their_kinds() {
    let addr = I2cAction::WriteAddress(0x90).nack_error().unwrap();
    let data = I2cAction::WriteData(0x00).nack_error().unwrap();
    assert!(I2cAction::Stop.nack_error().is_none());
    assert_eq!(i2c_error_kind(&addr), I2cErrorKind::NoAcknowledgeAddress);
    assert_eq!(i2c_error_kind(&data), I2cErrorKind::NoAcknowledgeData);
    assert_eq!(i2c_error_kind(&Error::MpsseBadCommand(0xAB)), I2cErrorKind::Other);
}

#[test]
fn io_error_kinds() {
    assert_eq!(io_error_kind(&Error::WriteZero), IoErrorKind::WriteZero);
    assert_eq!(io_error_kind(&Error::DeviceUnavailable), IoErrorKind::Other);
    assert_eq!(
        io_error_kind(&Error::Transfer(TransferError::Cancelled)),
        IoErrorKind::TimedOut
    );
    assert_eq!(io_error_kind(&Error::Transfer(TransferError::Stall)), IoErrorKind::Other);
}

#[test]
fn substring_search() {
    assert!(str_contains("address not acknowledged", "address"));
    assert!(!str_contains("data byte not acknowledged", "address"));
    assert!(str_contains("abc", ""));
    assert!(!str_contains("ab", "abc"));
    assert!(str_contains("xxabc", "abc"));
}

#[test]
fn bundles_keep_their_parts() {
    let mut dev = FtdiDevice::new(ChipType::Ft232H, 9, Duration::from_millis(10));
    let mut ctx = MpsseContext::for_device(&dev);
    let (spi, bus) = {
        let s = ctx.session(&mut dev).unwrap();
        (SpiDevice::new_config(&s, SpiMode::Mode3), I2cBus::bound_to(&s))
    };
    let mut hal = FtdiSpiDevice::from_parts(dev, ctx, spi);
    assert_eq!(hal.device().device_id(), 9);
    hal.device_mut().mark_recovery_required();
    assert!(hal.device().recovery_required());
    hal.context_mut().update_gpio_low_state(1, 2);
    assert_eq!(hal.context().gpio_low_value(), 1);
    assert_eq!(hal.spi().mode(), SpiMode::Mode3);
    let (dev, ctx, _spi) = hal.into_parts();
    let mut i2c = FtdiI2c::from_parts(dev, ctx, bus);
    assert!(i2c.device().recovery_required());
    i2c.device_mut().complete_recovery();
    let (mut dev, mut ctx, bus) = i2c.into_parts();
    assert!(ctx.session(&mut dev).is_err());
    let mut fresh = MpsseContext::for_device(&dev);
    let s = fresh.session(&mut dev).unwrap();
    assert!(matches!(bus.ensure_current(&s), Err(Error::InvalidMpsseContext)));
}
