use std::time::Duration;

use ftdi_nusb::error::Error;
use ftdi_nusb::hal::{
    i2c_read_total, i2c_setup_requests, split_received,
    i2c_idle_request, i2c_next, i2c_step, i2c_transaction_plan, I2cAction, I2cNext, I2cOperation,
    I2cStep,
};
use ftdi_nusb::mpsse::gpio::{GpioBank, GpioGroup, GpioPin};
use ftdi_nusb::mpsse::spi::{spi_transaction_next, SpiDevice, SpiMode, SpiNext, SpiOp, SpiOpPlan};
use ftdi_nusb::mpsse::{finish_with_cleanup, sync_step, MpsseContext, MpsseRequest, SyncAction};
use ftdi_nusb::stream::{drain_step, DrainStep};
use ftdi_nusb::{ChipType, FtdiDevice};

fn device(id: u64) -> FtdiDevice {
    FtdiDevice::new(ChipType::Ft232H, id, Duration::from_millis(100))
}

#[test]
fn adjacent_reads_are_one_contiguous_read() {
    let ops = vec![I2cOperation::Read(2), I2cOperation::Read(1)];
    let plan = i2c_transaction_plan(0x48, &ops).unwrap();
    assert_eq!(
        plan,
        vec![
            I2cAction::Start,
            I2cAction::WriteAddress(0x91),
            I2cAction::ReadByte { ack: true },
            I2cAction::ReadByte { ack: true },
            I2cAction::ReadByte { ack: false },
            I2cAction::Stop,
        ]
    );
}

#[test]
fn read_before_write_nacks_its_last_byte() {
    let ops = vec![I2cOperation::Read(2), I2cOperation::Read(0), I2cOperation::Write(vec![5])];
    let plan = i2c_transaction_plan(0x10, &ops).unwrap();
    assert_eq!(
        plan,
        vec![
            I2cAction::Start,
            I2cAction::WriteAddress(0x21),
            I2cAction::ReadByte { ack: true },
            I2cAction::ReadByte { ack: false },
            I2cAction::Start,
            I2cAction::WriteAddress(0x20),
            I2cAction::WriteData(5),
            I2cAction::Stop,
        ]
    );
}

#[test]
fn i2c_step_stops_on_nack() {
    match i2c_step(I2cAction::WriteAddress(0x90), 0x01) {
        I2cStep::StopWith(Error::I2cNack(m)) => assert_eq!(m, "address not acknowledged"),
        other => panic!("unexpected {:?}", other),
    }
    match i2c_step(I2cAction::WriteData(0x12), 0xFF) {
        I2cStep::StopWith(Error::I2cNack(m)) => assert_eq!(m, "data byte not acknowledged"),
        other => panic!("unexpected {:?}", other),
    }
    assert!(matches!(i2c_step(I2cAction::WriteData(0x12), 0xFE), I2cStep::Continue));
    assert!(matches!(i2c_step(I2cAction::ReadByte { ack: false }, 0xFF), I2cStep::Continue));
    assert!(matches!(i2c_step(I2cAction::Start, 0x01), I2cStep::Continue));
}

#[test]
fn i2c_action_commands() {
    let (start, n) = I2cAction::Start.command(0xF0, 0x08);
    assert_eq!(n, 0);
    assert_eq!(
        start,
        vec![0x80, 0xF2, 0x0B, 0x80, 0xF3, 0x0B, 0x80, 0xF1, 0x0B, 0x80, 0xF0, 0x0B]
    );
    let (stop, n) = I2cAction::Stop.command(0x00, 0x00);
    assert_eq!(n, 0);
    assert_eq!(stop, vec![0x80, 0x00, 0x03, 0x80, 0x01, 0x03, 0x80, 0x03, 0x03]);
    let (write, n) = I2cAction::WriteData(0xA5).command(0x00, 0x00);
    assert_eq!(n, 1);
    assert_eq!(
        write,
        vec![0x80, 0x00, 0x03, 0x11, 0x00, 0x00, 0xA5, 0x80, 0x02, 0x01, 0x22, 0x00, 0x87]
    );
    let (read, n) = I2cAction::ReadByte { ack: false }.command(0x00, 0x00);
    assert_eq!(n, 1);
    assert_eq!(
        read,
        vec![0x80, 0x02, 0x01, 0x20, 0x00, 0x00, 0x80, 0x00, 0x03, 0x13, 0x00, 0xFF, 0x87]
    );
}

#[test]
fn i2c_idle_keeps_other_pins() {
    let mut dev = device(30);
    let mut ctx = MpsseContext::for_device(&dev);
    ctx.update_gpio_low_state(0x58, 0x48);
    let s = ctx.session(&mut dev).unwrap();
    assert_eq!(i2c_idle_request(&s), MpsseRequest::SetGpioLow { value: 0x5B, direction: 0x4B });
}

#[test]
fn sync_step_decisions() {
    // The echo straddling two chunks is found.
    assert_eq!(sync_step(false, 0, 100, &[0x00, 0xFA]), SyncAction::Continue(true));
    assert_eq!(sync_step(true, 10, 100, &[0xAB]), SyncAction::Found);
    // Found wins over an expired deadline.
    assert_eq!(sync_step(false, 500, 100, &[0xFA, 0xAB]), SyncAction::Found);
    // No echo and the deadline passed.
    assert_eq!(sync_step(false, 100, 100, &[0x01]), SyncAction::TimedOut);
    // Before the first read: only the deadline is checked.
    assert_eq!(sync_step(false, 0, 100, &[]), SyncAction::Continue(false));
    assert_eq!(sync_step(false, 0, 0, &[]), SyncAction::TimedOut);
    // 0xAB without a preceding 0xFA is no echo.
    assert_eq!(sync_step(false, 0, 100, &[0xAB, 0xAB]), SyncAction::Continue(false));
}

#[test]
fn spi_transaction_asserts_cs_once() {
    let mut dev = device(31);
    let mut ctx = MpsseContext::for_device(&dev);
    let s = ctx.session(&mut dev).unwrap();
    let spi = SpiDevice::new_config(&s, SpiMode::Mode0);
    let ops = vec![
        SpiOp::Write(vec![0x9F]),
        SpiOp::Read(3),
        SpiOp::DelayNs(1000),
        SpiOp::Transfer { read_len: 1, write: vec![1, 2] },
        SpiOp::TransferInPlace(vec![7]),
    ];
    let plan = spi.transaction_plan(&s, &ops).unwrap();
    assert_eq!(plan.cs_assert, Some(MpsseRequest::SetGpioLow { value: 0x00, direction: 0x0B }));
    assert_eq!(plan.cs_deassert, Some(MpsseRequest::SetGpioLow { value: 0x08, direction: 0x0B }));
    assert_eq!(plan.ops.len(), 5);
    match &plan.ops[0] {
        SpiOpPlan::Commands { steps, result_len } => {
            assert_eq!(*result_len, 0);
            assert_eq!(steps.len(), 1);
            assert_eq!(steps[0].command, vec![0x11, 0x00, 0x00, 0x9F]);
        }
        other => panic!("unexpected {:?}", other),
    }
    match &plan.ops[1] {
        SpiOpPlan::Commands { steps, result_len } => {
            assert_eq!(*result_len, 3);
            assert_eq!(steps[0].command, vec![0x20, 0x02, 0x00, 0x87]);
            assert_eq!(steps[0].read_len, 3);
        }
        other => panic!("unexpected {:?}", other),
    }
    assert!(matches!(plan.ops[2], SpiOpPlan::DelayNs(1000)));
    match &plan.ops[3] {
        SpiOpPlan::Commands { steps, result_len } => {
            assert_eq!(*result_len, 1);
            assert_eq!(steps[0].command, vec![0x31, 0x01, 0x00, 0x01, 0x02, 0x87]);
            assert_eq!(steps[0].read_len, 2);
        }
        other => panic!("unexpected {:?}", other),
    }
    match &plan.ops[4] {
        SpiOpPlan::Commands { steps, result_len } => {
            assert_eq!(*result_len, 1);
            assert_eq!(steps[0].command, vec![0x31, 0x00, 0x00, 0x07, 0x87]);
        }
        other => panic!("unexpected {:?}", other),
    }
}

#[test]
fn spi_transaction_refused_when_recovery_needed() {
    let mut dev = device(32);
    let mut ctx = MpsseContext::for_device(&dev);
    let mut s = ctx.session(&mut dev).unwrap();
    let spi = SpiDevice::new_config(&s, SpiMode::Mode0);
    s.note_interruption(false);
    assert!(spi.transaction_plan(&s, &[SpiOp::Read(1)]).is_ok());
    s.note_interruption(true);
    assert!(matches!(
        spi.transaction_plan(&s, &[SpiOp::Read(1)]),
        Err(Error::RecoveryRequired)
    ));
}

#[test]
fn spi_transaction_stops_at_first_error_and_still_deasserts() {
    assert!(matches!(spi_transaction_next(2, 0, Ok(())), SpiNext::RunOp(0)));
    assert!(matches!(spi_transaction_next(2, 1, Ok(())), SpiNext::RunOp(1)));
    assert!(matches!(spi_transaction_next(2, 2, Ok(())), SpiNext::Deassert(Ok(()))));
    assert!(matches!(spi_transaction_next(0, 0, Ok(())), SpiNext::Deassert(Ok(()))));
    let failed = spi_transaction_next(3, 1, Err(Error::WriteZero));
    match failed {
        SpiNext::Deassert(r) => {
            // The operation's error wins over a failing deassertion.
            let outcome = finish_with_cleanup(r, Err(Error::ShortWrite));
            assert!(matches!(outcome, Err(Error::WriteZero)));
        }
        other => panic!("unexpected {:?}", other),
    }
}

#[test]
fn begin_init_invalidates_old_contexts() {
    let mut dev = device(33);
    let mut old_ctx = MpsseContext::begin_init(&mut dev).unwrap();
    assert!(old_ctx.session(&mut dev).is_ok());
    let mut ctx = MpsseContext::begin_init(&mut dev).unwrap();
    assert_eq!(dev.recovery_epoch(), 2);
    assert!(matches!(old_ctx.session(&mut dev), Err(Error::InvalidMpsseContext)));
    assert!(ctx.session(&mut dev).is_ok());
    assert_eq!(ctx.clock_hz(), 0);

    let mut uart = FtdiDevice::new(ChipType::Ft232R, 34, Duration::from_millis(1));
    assert!(matches!(
        MpsseContext::begin_init(&mut uart),
        Err(Error::UnsupportedChip(ChipType::Ft232R))
    ));
    assert_eq!(uart.recovery_epoch(), 0);
    let mut broken = device(35);
    broken.mark_recovery_required();
    assert!(matches!(MpsseContext::begin_init(&mut broken), Err(Error::RecoveryRequired)));
    assert_eq!(broken.recovery_epoch(), 0);
}

#[test]
fn gpio_requests_keep_other_pins() {
    let mut ctx = MpsseContext::test_new(true);
    ctx.update_gpio_low_state(0b1010_0000, 0b1111_0000);
    let pin = GpioPin::new(GpioBank::Low, 1);
    assert_eq!(
        pin.set_output_request(&ctx, true),
        MpsseRequest::SetGpioLow { value: 0b1010_0010, direction: 0b1111_0010 }
    );
    assert_eq!(
        GpioPin::new(GpioBank::Low, 7).write_request(&ctx, false),
        MpsseRequest::SetGpioLow { value: 0b0010_0000, direction: 0b1111_0000 }
    );
    assert_eq!(
        GpioPin::new(GpioBank::Low, 5).set_input_request(&ctx),
        MpsseRequest::SetGpioLow { value: 0b1010_0000, direction: 0b1101_0000 }
    );
    assert_eq!(GpioPin::new(GpioBank::High, 0).read_request(), MpsseRequest::GetGpioHigh);
    assert!(pin.level(0b0000_0010));
    assert!(!pin.level(0b1111_1101));
    let group = GpioGroup::new(GpioBank::High, 0x0F);
    assert_eq!(
        group.set_all_output_request(&ctx, 0xA5),
        MpsseRequest::SetGpioHigh { value: 0x05, direction: 0x0F }
    );
    assert_eq!(
        group.set_all_input_request(&ctx),
        MpsseRequest::SetGpioHigh { value: 0x00, direction: 0x00 }
    );
    assert_eq!(group.levels(0xA5), 0x05);
}

#[test]
fn i2c_nack_stops_the_transaction() {
    assert!(matches!(i2c_next(3, 0, I2cStep::Continue), I2cNext::Run(0)));
    assert!(matches!(i2c_next(3, 2, I2cStep::Continue), I2cNext::Run(2)));
    assert!(matches!(i2c_next(3, 3, I2cStep::Continue), I2cNext::Done));
    let step = i2c_step(I2cAction::WriteAddress(0x90), 0x01);
    match i2c_next(5, 2, step) {
        I2cNext::StopThenFail(Error::I2cNack(m)) => assert_eq!(m, "address not acknowledged"),
        other => panic!("unexpected {:?}", other),
    }
}

#[test]
fn io_free_transaction_runs_on_device_needing_recovery() {
    let mut dev = device(40);
    let mut ctx = MpsseContext::for_device(&dev);
    let mut s = ctx.session(&mut dev).unwrap();
    let manual = SpiDevice::with_cs_pin_config(&s, SpiMode::Mode0, 0, true, false);
    s.note_interruption(true);
    let plan = manual
        .transaction_plan(&s, &[SpiOp::DelayNs(5), SpiOp::Read(0), SpiOp::Write(vec![])])
        .unwrap();
    assert!(!plan.does_io);
    assert!(plan.cs_assert.is_none());
    assert!(matches!(
        manual.transaction_plan(&s, &[SpiOp::Read(1)]),
        Err(Error::RecoveryRequired)
    ));
    let managed = SpiDevice::new_config(&s, SpiMode::Mode0);
    assert!(matches!(managed.transaction_plan(&s, &[]), Err(Error::RecoveryRequired)));
}

#[test]
fn gpio_bit_is_checked() {
    assert!(GpioPin::new(GpioBank::Low, 7).check_bit().is_ok());
    match GpioPin::new(GpioBank::High, 8).check_bit() {
        Err(Error::InvalidArgument(m)) => assert_eq!(m, "GPIO bit must be 0..=7"),
        other => panic!("unexpected {:?}", other),
    }
}

#[test]
fn received_bytes_split_per_read() {
    let ops = vec![
        I2cOperation::Read(2),
        I2cOperation::Write(vec![9]),
        I2cOperation::Read(0),
        I2cOperation::Read(1),
    ];
    assert_eq!(i2c_read_total(&ops), Some(3));
    let parts = split_received(&ops, &[1, 2, 3]);
    assert_eq!(parts, vec![vec![1, 2], vec![], vec![], vec![3]]);
    assert_eq!(i2c_read_total(&[I2cOperation::Read(usize::MAX), I2cOperation::Read(1)]), None);
}

#[test]
fn i2c_setup_enables_3phase_only_on_h_parts() {
    let mut dev = device(41);
    let mut ctx = MpsseContext::for_device(&dev);
    let s = ctx.session(&mut dev).unwrap();
    assert_eq!(
        i2c_setup_requests(&s),
        vec![MpsseRequest::Enable3Phase, MpsseRequest::SetGpioLow { value: 0x03, direction: 0x03 }]
    );
    let mut dev2 = FtdiDevice::new(ChipType::Ft2232C, 42, Duration::from_millis(1));
    let mut ctx2 = MpsseContext::for_device(&dev2);
    let s2 = ctx2.session(&mut dev2).unwrap();
    assert_eq!(i2c_setup_requests(&s2), vec![MpsseRequest::SetGpioLow { value: 0x03, direction: 0x03 }]);
}

#[test]
fn drain_steps() {
    assert_eq!(drain_step(0, 500, 100), DrainStep::Done);
    assert_eq!(drain_step(2, 30, 100), DrainStep::Wait(70));
    assert_eq!(drain_step(2, 100, 100), DrainStep::Wait(0));
    assert_eq!(drain_step(1, 101, 100), DrainStep::TimedOut);
}

#[test]
fn refused_session_leaves_context_and_device() {
    let mut dev = device(43);
    let mut ctx = MpsseContext::for_device(&dev);
    dev.bump_recovery_epoch();
    assert!(matches!(ctx.session(&mut dev), Err(Error::InvalidMpsseContext)));
    assert_eq!(dev.recovery_epoch(), 1);
    assert!(!dev.recovery_required());
    assert_eq!(ctx.clock_hz(), 0);
}
