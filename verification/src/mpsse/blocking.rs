//! Owned wrappers of the MPSSE types for the blocking device API.
//!
//! Each wrapper holds the corresponding asynchronous value; `into_async` and
//! `into_blocking` convert between the two without changing it.

use vstd::prelude::*;

use crate::error::Result;

use super::gpio::{AsyncGpioGroup, AsyncGpioPin, GpioBank};
use super::i2c::AsyncI2cBus;
use super::jtag::{AsyncJtagBus, TapState, JTAG_DIR_MASK, JTAG_TMS_PIN};
use super::spi::{AsyncSpiDevice, SpiMode};
use super::AsyncMpsseContext;

verus! {

/// Blocking-API wrapper of an MPSSE context.
#[derive(Debug)]
pub struct MpsseContext(AsyncMpsseContext);

impl MpsseContext {
    pub closed spec fn spec_inner(&self) -> AsyncMpsseContext {
        self.0
    }

    /// Opcode the MPSSE echoes before an unknown opcode.
    pub const BAD_COMMAND: u8 = 0xFA;

    /// The wrapped asynchronous context.
    pub fn into_async(self) -> (c: AsyncMpsseContext)
        ensures
            c == self.spec_inner(),
    {
        self.0
    }

    /// Configured MPSSE clock in Hz.
    pub fn clock_hz(&self) -> (hz: u32)
        ensures
            hz == self.spec_inner()@.clock_hz,
    {
        self.0.clock_hz()
    }

    /// Direction mask of the low GPIO byte.
    pub fn gpio_low_dir(&self) -> (d: u8)
        ensures
            d == self.spec_inner()@.gpio_low_dir,
    {
        self.0.gpio_low_dir()
    }

    /// Value of the low GPIO byte.
    pub fn gpio_low_value(&self) -> (v: u8)
        ensures
            v == self.spec_inner()@.gpio_low_value,
    {
        self.0.gpio_low_value()
    }

    /// Direction mask of the high GPIO byte.
    pub fn gpio_high_dir(&self) -> (d: u8)
        ensures
            d == self.spec_inner()@.gpio_high_dir,
    {
        self.0.gpio_high_dir()
    }

    /// Value of the high GPIO byte.
    pub fn gpio_high_value(&self) -> (v: u8)
        ensures
            v == self.spec_inner()@.gpio_high_value,
    {
        self.0.gpio_high_value()
    }

    /// Whether the device is a hi-speed ("H") part.
    pub fn is_h_type(&self) -> (h: bool)
        ensures
            h == self.spec_inner()@.is_h_type,
    {
        self.0.is_h_type()
    }

    /// Fails with the opcode that follows the first "bad command" marker of
    /// `response` that has a successor byte.
    pub fn check_bad_command(response: &[u8]) -> (r: Result<()>)
        ensures
            r is Ok <==> (forall|i: int| !super::bad_command_at(response@, i)),
            r matches Err(e) ==> exists|i: int|
                super::first_bad_command_at(response@, i) && e
                    == crate::error::Error::MpsseBadCommand(response@[i + 1]),
    {
        AsyncMpsseContext::check_bad_command(response)
    }

    /// Borrow the wrapped asynchronous context.
    pub fn as_async(&self) -> (c: &AsyncMpsseContext)
        ensures
            *c == self.spec_inner(),
    {
        &self.0
    }

    /// Mutably borrow the wrapped asynchronous context.
    pub fn as_async_mut(&mut self) -> (c: &mut AsyncMpsseContext)
        ensures
            *c == old(self).spec_inner(),
            final(self).spec_inner() == *final(c),
    {
        &mut self.0
    }
}

impl AsyncMpsseContext {
    /// Wrap this context for the blocking API.
    pub fn into_blocking(self) -> (c: MpsseContext)
        ensures
            c.spec_inner() == self,
    {
        MpsseContext(self)
    }
}

/// Blocking-API wrapper of an SPI device.
#[derive(Debug, Clone)]
pub struct SpiDevice(AsyncSpiDevice);

impl SpiDevice {
    pub closed spec fn spec_inner(&self) -> AsyncSpiDevice {
        self.0
    }

    /// The SPI mode.
    pub fn mode(&self) -> (m: SpiMode)
        ensures
            m == self.spec_inner()@.mode,
    {
        self.0.mode()
    }

    /// Whether the SPI device uses LSB-first bit order.
    pub fn is_lsb_first(&self) -> (b: bool)
        ensures
            b == self.spec_inner()@.lsb_first,
    {
        self.0.is_lsb_first()
    }

    /// The CS pin bit mask (0 = manual CS).
    pub fn cs_pin(&self) -> (p: u8)
        ensures
            p == self.spec_inner()@.cs_pin,
    {
        self.0.cs_pin()
    }

    /// The wrapped asynchronous SPI device.
    pub fn into_async(self) -> (s: AsyncSpiDevice)
        ensures
            s == self.spec_inner(),
    {
        self.0
    }
}

impl AsyncSpiDevice {
    /// Wrap this SPI device for the blocking API.
    pub fn into_blocking(self) -> (s: SpiDevice)
        ensures
            s.spec_inner() == self,
    {
        SpiDevice(self)
    }
}

/// Blocking-API wrapper of an I2C bus.
#[derive(Debug, Clone, Copy)]
pub struct I2cBus(AsyncI2cBus);

impl I2cBus {
    pub closed spec fn spec_inner(&self) -> AsyncI2cBus {
        self.0
    }

    /// The wrapped asynchronous bus.
    pub fn into_async(self) -> (b: AsyncI2cBus)
        ensures
            b == self.spec_inner(),
    {
        self.0
    }
}

impl AsyncI2cBus {
    /// Wrap this bus for the blocking API.
    pub fn into_blocking(self) -> (b: I2cBus)
        ensures
            b.spec_inner() == self,
    {
        I2cBus(self)
    }
}

/// Blocking-API wrapper of a GPIO pin.
#[derive(Debug, Clone, Copy)]
pub struct GpioPin(AsyncGpioPin);

impl GpioPin {
    pub closed spec fn spec_inner(&self) -> AsyncGpioPin {
        self.0
    }

    /// Pin `bit` of `bank`.
    pub fn new(bank: GpioBank, bit: u8) -> (p: Self)
        ensures
            p.spec_inner().spec_bank() == bank,
            p.spec_inner().spec_bit() == bit,
    {
        GpioPin(AsyncGpioPin::new(bank, bit))
    }

    /// The pin's bank.
    pub fn bank(&self) -> (b: GpioBank)
        ensures
            b == self.spec_inner().spec_bank(),
    {
        self.0.bank()
    }

    /// The pin's bit number.
    pub fn bit(&self) -> (b: u8)
        ensures
            b == self.spec_inner().spec_bit(),
    {
        self.0.bit()
    }

    /// The pin's bit mask within its bank.
    pub fn mask(&self) -> (m: u8)
        requires
            self.spec_inner().spec_bit() < 8,
        ensures
            m == 1u8 << self.spec_inner().spec_bit(),
    {
        self.0.mask()
    }

    /// Whether `ctx` records the pin as an output.
    pub fn is_output(&self, ctx: &MpsseContext) -> (b: bool)
        requires
            self.spec_inner().spec_bit() < 8,
        ensures
            b == (super::gpio::bank_dir(ctx.spec_inner()@, self.spec_inner().spec_bank()) & (1u8
                << self.spec_inner().spec_bit()) != 0),
    {
        self.0.is_output(ctx.as_async())
    }

    /// The wrapped asynchronous pin.
    pub fn into_async(self) -> (p: AsyncGpioPin)
        ensures
            p == self.spec_inner(),
    {
        self.0
    }
}

impl AsyncGpioPin {
    /// Wrap this pin for the blocking API.
    pub fn into_blocking(self) -> (p: GpioPin)
        ensures
            p.spec_inner() == self,
    {
        GpioPin(self)
    }
}

/// Blocking-API wrapper of a GPIO pin group.
#[derive(Debug, Clone, Copy)]
pub struct GpioGroup(AsyncGpioGroup);

impl GpioGroup {
    pub closed spec fn spec_inner(&self) -> AsyncGpioGroup {
        self.0
    }

    /// The pins of `bank` selected by `mask`.
    pub fn new(bank: GpioBank, mask: u8) -> (g: Self)
        ensures
            g.spec_inner().spec_bank() == bank,
            g.spec_inner().spec_mask() == mask,
    {
        GpioGroup(AsyncGpioGroup::new(bank, mask))
    }

    /// The group's bank.
    pub fn bank(&self) -> (b: GpioBank)
        ensures
            b == self.spec_inner().spec_bank(),
    {
        self.0.bank()
    }

    /// The group's pin mask.
    pub fn mask(&self) -> (m: u8)
        ensures
            m == self.spec_inner().spec_mask(),
    {
        self.0.mask()
    }

    /// The wrapped asynchronous group.
    pub fn into_async(self) -> (g: AsyncGpioGroup)
        ensures
            g == self.spec_inner(),
    {
        self.0
    }
}

impl AsyncGpioGroup {
    /// Wrap this group for the blocking API.
    pub fn into_blocking(self) -> (g: GpioGroup)
        ensures
            g.spec_inner() == self,
    {
        GpioGroup(self)
    }
}

/// Blocking-API wrapper of a JTAG bus.
#[derive(Debug, Clone, Copy)]
pub struct JtagBus(AsyncJtagBus);

impl JtagBus {
    pub closed spec fn spec_inner(&self) -> AsyncJtagBus {
        self.0
    }

    /// The tracked TAP state.
    pub fn state(&self) -> (t: TapState)
        ensures
            t == self.spec_inner().spec_state(),
    {
        self.0.state()
    }

    /// The TMS pin mask.
    pub fn tms_pin(&self) -> (p: u8)
        ensures
            p == JTAG_TMS_PIN,
    {
        self.0.tms_pin()
    }

    /// The direction mask of the JTAG pins.
    pub fn dir_mask(&self) -> (d: u8)
        ensures
            d == JTAG_DIR_MASK,
    {
        self.0.dir_mask()
    }

    /// The wrapped asynchronous bus.
    pub fn into_async(self) -> (b: AsyncJtagBus)
        ensures
            b == self.spec_inner(),
    {
        self.0
    }
}

impl AsyncJtagBus {
    /// Wrap this bus for the blocking API.
    pub fn into_blocking(self) -> (b: JtagBus)
        ensures
            b.spec_inner() == self,
    {
        JtagBus(self)
    }
}

} // verus!
