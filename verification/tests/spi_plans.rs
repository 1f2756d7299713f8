use std::time::Duration;

use ftdi_nusb::constants::mpsse;
use ftdi_nusb::error::Error;
use ftdi_nusb::mpsse::spi::{merge_received, SpiDevice, SpiMode};
use ftdi_nusb::mpsse::{MpsseContext, MpsseRequest};
use ftdi_nusb::{ChipType, FtdiDevice};

fn device(id: u64) -> FtdiDevice {
    FtdiDevice::new(ChipType::Ft232H, id, Duration::from_millis(100))
}

#[test]
fn default_config_mode0() {
    let mut dev = device(1);
    let mut ctx = MpsseContext::for_device(&dev);
    let s = ctx.session(&mut dev).unwrap();
    let spi = SpiDevice::new_config(&s, SpiMode::Mode0);
    assert_eq!(spi.write_cmd(), 0x11);
    assert_eq!(spi.read_cmd(), 0x20);
    assert_eq!(spi.rw_cmd(), 0x31);
    assert_eq!(spi.dir_mask(), 0x0B);
    assert_eq!(spi.idle_value(), 0x08);
    assert_eq!(spi.cs_pin(), 0x08);
    assert!(!spi.is_lsb_first());
    assert_eq!(spi.mode(), SpiMode::Mode0);
    assert_eq!(
        spi.init_request(),
        MpsseRequest::SetGpioLow { value: 0x08, direction: 0x0B }
    );
}

#[test]
fn custom_config_mode2_lsb_active_high() {
    let mut dev = device(2);
    let mut ctx = MpsseContext::for_device(&dev);
    let s = ctx.session(&mut dev).unwrap();
    let spi = SpiDevice::with_cs_pin_config(&s, SpiMode::Mode2, 0x10, false, true);
    assert_eq!(spi.write_cmd(), 0x18);
    assert_eq!(spi.read_cmd(), 0x2C);
    assert_eq!(spi.rw_cmd(), 0x3C);
    assert_eq!(spi.dir_mask(), 0x13);
    assert_eq!(spi.idle_value(), 0x01);
    assert_eq!(spi.cs_asserted_value(), 0x11);
    assert_eq!(
        spi.cs_assert_request(),
        Some(MpsseRequest::SetGpioLow { value: 0x11, direction: 0x13 })
    );
    assert_eq!(
        spi.cs_deassert_request(),
        Some(MpsseRequest::SetGpioLow { value: 0x01, direction: 0x13 })
    );
    let manual = SpiDevice::with_cs_pin_config(&s, SpiMode::Mode3, 0, true, false);
    assert_eq!(manual.cs_assert_request(), None);
    assert_eq!(manual.cs_deassert_request(), None);
    assert_eq!(manual.idle_value(), 0x01);
}

#[test]
fn transfer_plan_chunks_and_frames() {
    let mut dev = device(3);
    let mut ctx = MpsseContext::for_device(&dev);
    let s = ctx.session(&mut dev).unwrap();
    let spi = SpiDevice::new_config(&s, SpiMode::Mode0);
    let tx: Vec<u8> = (0..1025u32).map(|i| i as u8).collect();
    let plan = spi.transfer_plan(&s, &tx).unwrap();
    assert_eq!(plan.result_len, 1025);
    assert_eq!(plan.steps.len(), 2);
    assert_eq!(plan.steps[0].offset, 0);
    assert_eq!(plan.steps[0].read_len, 1024);
    assert_eq!(&plan.steps[0].command[..3], &[0x31, 0xFF, 0x03]);
    assert_eq!(plan.steps[0].command.len(), 1024 + 4);
    assert_eq!(plan.steps[1].command, vec![0x31, 0, 0, 0x00, mpsse::SEND_IMMEDIATE]);
    assert_eq!(plan.steps[1].offset, 1024);
    assert_eq!(
        plan.cs_assert,
        Some(MpsseRequest::SetGpioLow { value: 0x00, direction: 0x0B })
    );
    assert_eq!(
        plan.cs_deassert,
        Some(MpsseRequest::SetGpioLow { value: 0x08, direction: 0x0B })
    );
    let empty = spi.transfer_plan(&s, &[]).unwrap();
    assert!(empty.steps.is_empty() && empty.cs_assert.is_none() && empty.cs_deassert.is_none());
}

#[test]
fn write_plan_splits_at_65536() {
    let mut dev = device(4);
    let mut ctx = MpsseContext::for_device(&dev);
    let s = ctx.session(&mut dev).unwrap();
    let spi = SpiDevice::new_config(&s, SpiMode::Mode1);
    let tx = vec![0x5Au8; 70_000];
    let plan = spi.write_plan(&s, &tx).unwrap();
    assert_eq!(plan.steps.len(), 2);
    assert_eq!(&plan.steps[0].command[..3], &[0x10, 0xFF, 0xFF]);
    assert_eq!(plan.steps[0].command.len(), 3 + 65536);
    assert_eq!(&plan.steps[1].command[..3], &[0x10, 0x6F, 0x11]);
    assert_eq!(plan.steps[1].command.len(), 3 + 4464);
    assert!(plan.steps.iter().all(|st| st.read_len == 0));
    assert_eq!(plan.result_len, 0);
}

#[test]
fn read_and_write_read_plans() {
    let mut dev = device(5);
    let mut ctx = MpsseContext::for_device(&dev);
    let s = ctx.session(&mut dev).unwrap();
    let spi = SpiDevice::new_config(&s, SpiMode::Mode0);
    let plan = spi.read_plan(&s, 2000).unwrap();
    assert_eq!(plan.steps.len(), 2);
    assert_eq!(plan.steps[0].command, vec![0x20, 0xFF, 0x03, mpsse::SEND_IMMEDIATE]);
    assert_eq!(plan.steps[1].command, vec![0x20, 0xCF, 0x03, mpsse::SEND_IMMEDIATE]);
    assert_eq!(plan.steps[1].read_len, 976);
    assert_eq!(plan.result_len, 2000);

    let plan = spi.write_read_plan(&s, &[0x9F], 3).unwrap();
    assert_eq!(plan.steps.len(), 2);
    assert_eq!(plan.steps[0].command, vec![0x11, 0, 0, 0x9F]);
    assert_eq!(plan.steps[1].command, vec![0x20, 2, 0, mpsse::SEND_IMMEDIATE]);
    assert_eq!(plan.steps[1].read_len, 3);
    assert_eq!(plan.result_len, 3);
    assert!(spi.write_read_plan(&s, &[], 0).unwrap().steps.is_empty());
    assert!(spi.read_plan(&s, 0).unwrap().steps.is_empty());
}

#[test]
fn stale_or_foreign_spi_device_is_refused() {
    let mut dev = device(6);
    let mut ctx = MpsseContext::for_device(&dev);
    let spi = {
        let s = ctx.session(&mut dev).unwrap();
        SpiDevice::new_config(&s, SpiMode::Mode0)
    };
    dev.bump_recovery_epoch();
    let mut ctx2 = MpsseContext::for_device(&dev);
    let s = ctx2.session(&mut dev).unwrap();
    assert!(matches!(spi.ensure_current(&s), Err(Error::InvalidMpsseContext)));
    assert!(matches!(spi.transfer_plan(&s, &[1]), Err(Error::InvalidMpsseContext)));
    // An empty transfer is a no-op even for a stale device.
    assert!(spi.write_plan(&s, &[]).is_ok());
}

#[test]
fn plan_refused_when_device_needs_recovery() {
    let mut dev = device(7);
    let mut ctx = MpsseContext::for_device(&dev);
    let mut s = ctx.session(&mut dev).unwrap();
    let spi = SpiDevice::new_config(&s, SpiMode::Mode0);
    s.note_interruption(true);
    assert!(matches!(spi.read_plan(&s, 4), Err(Error::RecoveryRequired)));
}

#[test]
fn merge_received_truncates_at_buffer_end() {
    let mut buf = vec![0u8; 5];
    merge_received(&mut buf, 3, &[7, 8, 9]);
    assert_eq!(buf, vec![0, 0, 0, 7, 8]);
    merge_received(&mut buf, 0, &[1]);
    assert_eq!(buf, vec![1, 0, 0, 7, 8]);
    merge_received(&mut buf, 9, &[1]);
    assert_eq!(buf, vec![1, 0, 0, 7, 8]);
}
