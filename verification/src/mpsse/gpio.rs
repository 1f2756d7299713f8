//! MPSSE GPIO pins and pin groups.
//!
//! A pin or group names bits of one of the two MPSSE GPIO bytes: the low
//! byte (ADBUS) or the high byte (ACBUS). Their direction is read from the
//! state an [`MpsseContext`] records.

use vstd::prelude::*;

use super::{MpsseContext, MpsseRequest, MpsseState};
use crate::error::{Error, Result};

verus! {

/// Which MPSSE GPIO byte.
#[derive(Debug, Clone, Copy, PartialEq, Eq, Structural)]
pub enum GpioBank {
    /// The low byte (ADBUS0..7).
    Low,
    /// The high byte (ACBUS0..7).
    High,
}

/// Direction mask that `ctx` records for `bank`.
pub open spec fn bank_dir(st: super::MpsseState, bank: GpioBank) -> u8 {
    match bank {
        GpioBank::Low => st.gpio_low_dir,
        GpioBank::High => st.gpio_high_dir,
    }
}

/// A single MPSSE GPIO pin.
#[derive(Debug, Clone, Copy)]
pub struct GpioPin {
    bank: GpioBank,
    bit: u8,
}

/// The pin type used by the asynchronous API.
pub type AsyncGpioPin = GpioPin;

impl GpioPin {
    pub closed spec fn spec_bank(&self) -> GpioBank {
        self.bank
    }

    pub closed spec fn spec_bit(&self) -> u8 {
        self.bit
    }

    /// Pin `bit` (0..7) of `bank`.
    pub fn new(bank: GpioBank, bit: u8) -> (p: Self)
        ensures
            p.spec_bank() == bank,
            p.spec_bit() == bit,
    {
        GpioPin { bank, bit }
    }

    /// The pin's bank.
    pub fn bank(&self) -> (b: GpioBank)
        ensures
            b == self.spec_bank(),
    {
        self.bank
    }

    /// The pin's bit number.
    pub fn bit(&self) -> (b: u8)
        ensures
            b == self.spec_bit(),
    {
        self.bit
    }

    /// The pin's bit mask within its bank.
    pub fn mask(&self) -> (m: u8)
        requires
            self.spec_bit() < 8,
        ensures
            m == 1u8 << self.spec_bit(),
    {
        1u8 << self.bit
    }

    /// Whether `ctx` records the pin as an output.
    pub fn is_output(&self, ctx: &MpsseContext) -> (b: bool)
        requires
            self.spec_bit() < 8,
        ensures
            b == (bank_dir(ctx@, self.spec_bank()) & (1u8 << self.spec_bit()) != 0),
    {
        let dir = match self.bank {
            GpioBank::Low => ctx.gpio_low_dir(),
            GpioBank::High => ctx.gpio_high_dir(),
        };
        dir & self.mask() != 0
    }
}

/// A group of pins of one MPSSE GPIO byte, driven together.
#[derive(Debug, Clone, Copy)]
pub struct GpioGroup {
    bank: GpioBank,
    mask: u8,
}

/// The group type used by the asynchronous API.
pub type AsyncGpioGroup = GpioGroup;

impl GpioGroup {
    pub closed spec fn spec_bank(&self) -> GpioBank {
        self.bank
    }

    pub closed spec fn spec_mask(&self) -> u8 {
        self.mask
    }

    /// The pins of `bank` selected by `mask`.
    pub fn new(bank: GpioBank, mask: u8) -> (g: Self)
        ensures
            g.spec_bank() == bank,
            g.spec_mask() == mask,
    {
        GpioGroup { bank, mask }
    }

    /// The group's bank.
    pub fn bank(&self) -> (b: GpioBank)
        ensures
            b == self.spec_bank(),
    {
        self.bank
    }

    /// The group's pin mask.
    pub fn mask(&self) -> (m: u8)
        ensures
            m == self.spec_mask(),
    {
        self.mask
    }
}

/// Value that the context records for `bank`.
pub open spec fn bank_value(st: MpsseState, bank: GpioBank) -> u8 {
    match bank {
        GpioBank::Low => st.gpio_low_value,
        GpioBank::High => st.gpio_high_value,
    }
}

/// The request that drives `bank` with `value` and `direction`.
pub open spec fn set_bank_request(bank: GpioBank, value: u8, direction: u8) -> MpsseRequest {
    match bank {
        GpioBank::Low => MpsseRequest::SetGpioLow { value, direction },
        GpioBank::High => MpsseRequest::SetGpioHigh { value, direction },
    }
}

/// The request that reads `bank`.
pub open spec fn get_bank_request(bank: GpioBank) -> MpsseRequest {
    match bank {
        GpioBank::Low => MpsseRequest::GetGpioLow,
        GpioBank::High => MpsseRequest::GetGpioHigh,
    }
}

/// The pins of `mask` set to `levels`, the others as in `value`.
pub open spec fn with_levels(value: u8, mask: u8, levels: u8) -> u8 {
    (value & !mask) | (levels & mask)
}

fn bank_state(ctx: &MpsseContext, bank: GpioBank) -> (r: (u8, u8))
    ensures
        r == (bank_value(ctx@, bank), bank_dir(ctx@, bank)),
{
    match bank {
        GpioBank::Low => (ctx.gpio_low_value(), ctx.gpio_low_dir()),
        GpioBank::High => (ctx.gpio_high_value(), ctx.gpio_high_dir()),
    }
}

fn set_bank(bank: GpioBank, value: u8, direction: u8) -> (r: MpsseRequest)
    ensures
        r == set_bank_request(bank, value, direction),
{
    match bank {
        GpioBank::Low => MpsseRequest::SetGpioLow { value, direction },
        GpioBank::High => MpsseRequest::SetGpioHigh { value, direction },
    }
}

fn get_bank(bank: GpioBank) -> (r: MpsseRequest)
    ensures
        r == get_bank_request(bank),
{
    match bank {
        GpioBank::Low => MpsseRequest::GetGpioLow,
        GpioBank::High => MpsseRequest::GetGpioHigh,
    }
}

impl GpioPin {
    /// Fails with [`Error::InvalidArgument`] unless the pin's bit number is
    /// 0..=7, which every pin operation needs.
    pub fn check_bit(&self) -> (r: Result<()>)
        ensures
            r is Ok <==> self.spec_bit() < 8,
            r matches Err(e) ==> e == Error::InvalidArgument("GPIO bit must be 0..=7"),
    {
        if self.bit < 8 {
            Ok(())
        } else {
            Err(Error::InvalidArgument("GPIO bit must be 0..=7"))
        }
    }

    /// The request that makes the pin an output driven `high` or low; the
    /// other pins of the bank keep their value and direction.
    pub fn set_output_request(&self, ctx: &MpsseContext, high: bool) -> (r: MpsseRequest)
        requires
            self.spec_bit() < 8,
        ensures
            ({
                let m = 1u8 << self.spec_bit();
                let b = self.spec_bank();
                r == set_bank_request(
                    b,
                    with_levels(bank_value(ctx@, b), m, if high { m } else { 0u8 }),
                    bank_dir(ctx@, b) | m,
                )
            }),
    {
        let m = self.mask();
        let (value, dir) = bank_state(ctx, self.bank);
        let levels: u8 = if high { m } else { 0u8 };
        set_bank(self.bank, (value & !m) | (levels & m), dir | m)
    }

    /// The request that makes the pin an input; the other pins keep their
    /// value and direction.
    pub fn set_input_request(&self, ctx: &MpsseContext) -> (r: MpsseRequest)
        requires
            self.spec_bit() < 8,
        ensures
            ({
                let m = 1u8 << self.spec_bit();
                let b = self.spec_bank();
                r == set_bank_request(b, bank_value(ctx@, b), bank_dir(ctx@, b) & !m)
            }),
    {
        let m = self.mask();
        let (value, dir) = bank_state(ctx, self.bank);
        set_bank(self.bank, value, dir & !m)
    }

    /// The request that drives the pin `high` or low without changing any
    /// direction.
    pub fn write_request(&self, ctx: &MpsseContext, high: bool) -> (r: MpsseRequest)
        requires
            self.spec_bit() < 8,
        ensures
            ({
                let m = 1u8 << self.spec_bit();
                let b = self.spec_bank();
                r == set_bank_request(
                    b,
                    with_levels(bank_value(ctx@, b), m, if high { m } else { 0u8 }),
                    bank_dir(ctx@, b),
                )
            }),
    {
        let m = self.mask();
        let (value, dir) = bank_state(ctx, self.bank);
        let levels: u8 = if high { m } else { 0u8 };
        set_bank(self.bank, (value & !m) | (levels & m), dir)
    }

    /// The request that reads the pin's bank.
    pub fn read_request(&self) -> (r: MpsseRequest)
        ensures
            r == get_bank_request(self.spec_bank()),
    {
        get_bank(self.bank)
    }

    /// The pin's level in the bank byte `answer` that the read returned.
    pub fn level(&self, answer: u8) -> (high: bool)
        requires
            self.spec_bit() < 8,
        ensures
            high == (answer & (1u8 << self.spec_bit()) != 0),
    {
        answer & self.mask() != 0
    }
}

impl GpioGroup {
    /// The request that makes the group's pins outputs driven to the bits
    /// of `values` under the mask; the other pins keep their value and
    /// direction.
    pub fn set_all_output_request(&self, ctx: &MpsseContext, values: u8) -> (r: MpsseRequest)
        ensures
            ({
                let m = self.spec_mask();
                let b = self.spec_bank();
                r == set_bank_request(b, with_levels(bank_value(ctx@, b), m, values), bank_dir(ctx@, b) | m)
            }),
    {
        let m = self.mask;
        let (value, dir) = bank_state(ctx, self.bank);
        set_bank(self.bank, (value & !m) | (values & m), dir | m)
    }

    /// The request that makes the group's pins inputs.
    pub fn set_all_input_request(&self, ctx: &MpsseContext) -> (r: MpsseRequest)
        ensures
            r == set_bank_request(
                self.spec_bank(),
                bank_value(ctx@, self.spec_bank()),
                bank_dir(ctx@, self.spec_bank()) & !self.spec_mask(),
            ),
    {
        let (value, dir) = bank_state(ctx, self.bank);
        set_bank(self.bank, value, dir & !self.mask)
    }

    /// The request that reads the group's bank.
    pub fn read_request(&self) -> (r: MpsseRequest)
        ensures
            r == get_bank_request(self.spec_bank()),
    {
        get_bank(self.bank)
    }

    /// The group's pins in the bank byte `answer` that the read returned.
    pub fn levels(&self, answer: u8) -> (v: u8)
        ensures
            v == answer & self.spec_mask(),
    {
        answer & self.mask
    }
}

/// Updating the pins of `mask` to `levels` sets exactly those pins to the
/// levels given and leaves every other pin of the byte as it was.
pub proof fn lemma_with_levels(value: u8, mask: u8, levels: u8)
    ensures
        with_levels(value, mask, levels) & mask == levels & mask,
        with_levels(value, mask, levels) & !mask == value & !mask,
{
    assert(((value & !mask) | (levels & mask)) & mask == levels & mask && ((value & !mask) | (
    levels & mask)) & !mask == value & !mask) by (bit_vector);
}

/// A pin request targets the pin's own bank: low-bank pins are driven with
/// `SET_BITS_LOW` requests and read with `GET_BITS_LOW`, high-bank pins with
/// the high-byte requests, and driving a pin as an output marks its
/// direction bit as an output while reading changes nothing.
pub proof fn lemma_bank_requests(bank: GpioBank, value: u8, direction: u8)
    ensures
        bank is Low ==> set_bank_request(bank, value, direction) == (MpsseRequest::SetGpioLow {
            value,
            direction,
        }) && get_bank_request(bank) == MpsseRequest::GetGpioLow,
        bank is High ==> set_bank_request(bank, value, direction) == (MpsseRequest::SetGpioHigh {
            value,
            direction,
        }) && get_bank_request(bank) == MpsseRequest::GetGpioHigh,
{
}

} // verus!

