use std::time::Duration;

use ftdi_nusb::mpsse::blocking;
use ftdi_nusb::mpsse::gpio::{GpioBank, GpioGroup, GpioPin};
use ftdi_nusb::mpsse::i2c::I2cBus;
use ftdi_nusb::mpsse::spi::{SpiDevice, SpiMode};
use ftdi_nusb::mpsse::{MpsseContext, MpsseRequest};
use ftdi_nusb::sio::{flush_rx_request, flush_tx_request, set_bitmode_request};
use ftdi_nusb::{BitMode, ChipType, FtdiDevice, Interface};

#[test]
fn interface_addressing() {
    let a = Interface::A.config();
    assert_eq!((a.interface_num, a.index, a.out_ep, a.in_ep), (0, 1, 0x02, 0x81));
    assert_eq!(Interface::Any.config(), a);
    let d = Interface::D.config();
    assert_eq!((d.interface_num, d.index, d.out_ep, d.in_ep), (3, 4, 0x08, 0x87));
}

#[test]
fn chip_and_mode_values() {
    assert!(ChipType::Ft4232H.is_h_type());
    assert!(!ChipType::Ft2232C.is_h_type());
    assert_eq!(BitMode::Mpsse.bits(), 0x02);
    assert_eq!(BitMode::SyncFf.bits(), 0x40);
    assert_eq!(BitMode::Reset.bits(), 0x00);
}

#[test]
fn control_requests() {
    let r = set_bitmode_request(Interface::B, 0xFF, BitMode::SyncFf);
    assert_eq!((r.request, r.value, r.index), (0x0B, 0x40FF, 2));
    let r = flush_rx_request(Interface::A);
    assert_eq!((r.request, r.value, r.index), (0x00, 2, 1));
    let r = flush_tx_request(Interface::A);
    assert_eq!((r.request, r.value, r.index), (0x00, 1, 1));
}

#[test]
fn blocking_wrappers_round_trip() {
    let dev = FtdiDevice::new(ChipType::Ft232H, 4, Duration::from_millis(10));
    let mut bdev = dev.into_blocking();
    bdev.as_async_mut().mark_recovery_required();
    assert!(bdev.as_async().recovery_required());
    let mut dev = bdev.into_async();
    dev.complete_recovery();

    let mut ctx = MpsseContext::for_device(&dev);
    let (spi, bus) = {
        let mut s = ctx.session(&mut dev).unwrap();
        s.complete(MpsseRequest::SetGpioHigh { value: 0x05, direction: 0x0F });
        (SpiDevice::new_config(&s, SpiMode::Mode1), I2cBus::bound_to(&s))
    };
    let mut bctx = ctx.into_blocking();
    assert_eq!(bctx.gpio_high_value(), 0x05);
    assert_eq!(bctx.gpio_high_dir(), 0x0F);
    assert_eq!(bctx.gpio_low_dir(), 0);
    assert_eq!(bctx.gpio_low_value(), 0);
    assert_eq!(bctx.clock_hz(), 0);
    assert!(bctx.is_h_type());
    assert_eq!(blocking::MpsseContext::BAD_COMMAND, 0xFA);
    assert!(blocking::MpsseContext::check_bad_command(&[0xFA, 0x12]).is_err());
    bctx.as_async_mut().update_gpio_low_state(3, 4);
    assert_eq!(bctx.as_async().gpio_low_dir(), 4);
    let ctx = bctx.into_async();
    assert_eq!(ctx.gpio_low_value(), 3);

    let bspi = spi.into_blocking();
    assert_eq!(bspi.mode(), SpiMode::Mode1);
    assert_eq!(bspi.cs_pin(), 0x08);
    assert!(!bspi.is_lsb_first());
    assert_eq!(bspi.into_async().rw_cmd(), 0x34);

    let bbus = bus.into_blocking();
    let _bus: I2cBus = bbus.into_async();

    let pin = GpioPin::new(GpioBank::High, 2).into_blocking();
    assert_eq!(pin.bank(), GpioBank::High);
    assert_eq!(pin.bit(), 2);
    assert_eq!(pin.mask(), 0x04);
    let bctx = ctx.into_blocking();
    assert!(pin.is_output(&bctx));
    let low = blocking::GpioPin::new(GpioBank::Low, 7);
    assert!(!low.is_output(&bctx));
    assert_eq!(low.into_async().mask(), 0x80);

    let group = blocking::GpioGroup::new(GpioBank::Low, 0xF0);
    assert_eq!(group.bank(), GpioBank::Low);
    assert_eq!(group.mask(), 0xF0);
    let g: GpioGroup = group.into_async();
    assert_eq!(g.into_blocking().mask(), 0xF0);
}
