//! Bundles and decision logic behind the `embedded-hal` and `embedded-io`
//! adapters.
//!
//! [`FtdiSpiDevice`] and [`FtdiI2c`] bundle a device, its MPSSE context and a
//! bus. An I2C transaction is planned as a list of [`I2cAction`]s: one START
//! and address byte per run of same-direction operations (repeated START
//! between direction changes), the data bytes, and a final STOP. The error
//! classifiers map library errors to the kinds the embedded traits report.

use vstd::prelude::*;
use vstd::string::*;

use crate::constants::mpsse;
use crate::context::FtdiDevice;
use crate::error::{Error, Result, TransferError};
use crate::mpsse::i2c::I2cBus;
use crate::mpsse::spi::SpiDevice;
use crate::mpsse::{MpsseContext, MpsseRequest, MpsseSession, MpsseState};

verus! {

// ---------------------------------------------------------------------------
// Bundles
// ---------------------------------------------------------------------------

/// A device, its MPSSE context and an SPI device configured on it.
#[derive(Debug)]
pub struct FtdiSpiDevice {
    dev: FtdiDevice,
    ctx: MpsseContext,
    spi: SpiDevice,
}

impl FtdiSpiDevice {
    pub closed spec fn spec_parts(&self) -> (FtdiDevice, MpsseContext, SpiDevice) {
        (self.dev, self.ctx, self.spi)
    }

    /// Bundle already-opened components.
    pub fn from_parts(dev: FtdiDevice, ctx: MpsseContext, spi: SpiDevice) -> (s: Self)
        ensures
            s.spec_parts() == (dev, ctx, spi),
    {
        FtdiSpiDevice { dev, ctx, spi }
    }

    /// Borrow the underlying device.
    pub fn device(&self) -> (d: &FtdiDevice)
        ensures
            *d == self.spec_parts().0,
    {
        &self.dev
    }

    /// Mutably borrow the underlying device.
    pub fn device_mut(&mut self) -> (d: &mut FtdiDevice)
        ensures
            *d == old(self).spec_parts().0,
            final(self).spec_parts() == (*final(d), old(self).spec_parts().1, old(
                self,
            ).spec_parts().2),
    {
        &mut self.dev
    }

    /// Borrow the underlying MPSSE context.
    pub fn context(&self) -> (c: &MpsseContext)
        ensures
            *c == self.spec_parts().1,
    {
        &self.ctx
    }

    /// Mutably borrow the underlying MPSSE context.
    pub fn context_mut(&mut self) -> (c: &mut MpsseContext)
        ensures
            *c == old(self).spec_parts().1,
            final(self).spec_parts() == (old(self).spec_parts().0, *final(c), old(
                self,
            ).spec_parts().2),
    {
        &mut self.ctx
    }

    /// Borrow the SPI device.
    pub fn spi(&self) -> (s: &SpiDevice)
        ensures
            *s == self.spec_parts().2,
    {
        &self.spi
    }

    /// Borrow the device and the context mutably and the SPI device shared,
    /// all at once (for running a transaction).
    pub fn parts_mut(&mut self) -> (p: (&mut FtdiDevice, &mut MpsseContext, &SpiDevice))
        ensures
            *p.0 == old(self).spec_parts().0,
            *p.1 == old(self).spec_parts().1,
            *p.2 == old(self).spec_parts().2,
            final(self).spec_parts() == (*final(p.0), *final(p.1), old(self).spec_parts().2),
    {
        (&mut self.dev, &mut self.ctx, &self.spi)
    }

    /// Decompose into the underlying parts.
    pub fn into_parts(self) -> (p: (FtdiDevice, MpsseContext, SpiDevice))
        ensures
            p == self.spec_parts(),
    {
        (self.dev, self.ctx, self.spi)
    }
}

/// A device, its MPSSE context and an I2C bus configured on it.
#[derive(Debug)]
pub struct FtdiI2c {
    dev: FtdiDevice,
    ctx: MpsseContext,
    i2c: I2cBus,
}

impl FtdiI2c {
    pub closed spec fn spec_parts(&self) -> (FtdiDevice, MpsseContext, I2cBus) {
        (self.dev, self.ctx, self.i2c)
    }

    /// Bundle already-opened components.
    pub fn from_parts(dev: FtdiDevice, ctx: MpsseContext, i2c: I2cBus) -> (s: Self)
        ensures
            s.spec_parts() == (dev, ctx, i2c),
    {
        FtdiI2c { dev, ctx, i2c }
    }

    /// Borrow the underlying device.
    pub fn device(&self) -> (d: &FtdiDevice)
        ensures
            *d == self.spec_parts().0,
    {
        &self.dev
    }

    /// Mutably borrow the underlying device.
    pub fn device_mut(&mut self) -> (d: &mut FtdiDevice)
        ensures
            *d == old(self).spec_parts().0,
            final(self).spec_parts() == (*final(d), old(self).spec_parts().1, old(
                self,
            ).spec_parts().2),
    {
        &mut self.dev
    }

    /// Borrow the device and context mutably and the bus immutably, to open
    /// a session for a transaction.
    pub fn parts_mut(&mut self) -> (p: (&mut FtdiDevice, &mut MpsseContext, &I2cBus))
        ensures
            *p.0 == old(self).spec_parts().0,
            *p.1 == old(self).spec_parts().1,
            *p.2 == old(self).spec_parts().2,
            final(self).spec_parts() == (*final(p.0), *final(p.1), old(self).spec_parts().2),
    {
        (&mut self.dev, &mut self.ctx, &self.i2c)
    }

    /// Decompose into the underlying parts.
    pub fn into_parts(self) -> (p: (FtdiDevice, MpsseContext, I2cBus))
        ensures
            p == self.spec_parts(),
    {
        (self.dev, self.ctx, self.i2c)
    }
}

} // verus!

verus! {

// ---------------------------------------------------------------------------
// I2C transactions
// ---------------------------------------------------------------------------

/// One operation of an I2C transaction.
#[derive(Debug)]
pub enum I2cOperation {
    /// Read this many bytes.
    Read(usize),
    /// Write these bytes.
    Write(Vec<u8>),
}

/// One bus action of a planned I2C transaction.
#[derive(Debug, Clone, Copy, PartialEq, Eq, Structural)]
pub enum I2cAction {
    /// Issue a (repeated) START condition.
    Start,
    /// Send the address byte; the transaction fails if it is not
    /// acknowledged.
    WriteAddress(u8),
    /// Send a data byte; the transaction fails if it is not acknowledged.
    WriteData(u8),
    /// Read a byte and answer ACK (more to come) or NACK (last byte).
    ReadByte { ack: bool },
    /// Issue a STOP condition.
    Stop,
}

/// Whether `op` reads.
pub open spec fn is_read_op(op: I2cOperation) -> bool {
    op is Read
}

/// The address byte for a read (R/W bit 1) or a write (R/W bit 0).
pub open spec fn address_byte(address: u8, read: bool) -> u8 {
    (2 * address + (if read {
        1int
    } else {
        0int
    })) as u8
}

/// Whether more bytes are read, without a repeated START, after operation
/// `i`: some later operation in the unbroken run of reads that follows `i`
/// reads at least one byte.
pub open spec fn reads_follow(ops: Seq<I2cOperation>, i: int) -> bool
    decreases ops.len() - i,
{
    if 0 <= i && i + 1 < ops.len() {
        match ops[i + 1] {
            I2cOperation::Read(m) => m > 0 || reads_follow(ops, i + 1),
            I2cOperation::Write(_) => false,
        }
    } else {
        false
    }
}

/// The data actions of one operation: one read per byte, or one write per
/// byte. Adjacent reads form one contiguous read, so a read byte is NACKed
/// only when it is the last byte of the run (`more` tells whether later
/// operations of the run read more bytes).
pub open spec fn op_actions(op: I2cOperation, more: bool) -> Seq<I2cAction> {
    match op {
        I2cOperation::Read(n) => Seq::new(
            n as nat,
            |i: int| I2cAction::ReadByte { ack: i < n - 1 || more },
        ),
        I2cOperation::Write(bytes) => bytes@.map_values(|b: u8| I2cAction::WriteData(b)),
    }
}

/// The actions of operation `i`: a repeated START and address byte when the
/// direction changes from the previous operation, then its data actions.
pub open spec fn op_block(address: u8, ops: Seq<I2cOperation>, i: int) -> Seq<I2cAction> {
    let cur = is_read_op(ops[i]);
    let prev = if i == 0 {
        cur
    } else {
        is_read_op(ops[i - 1])
    };
    (if cur != prev {
        seq![I2cAction::Start, I2cAction::WriteAddress(address_byte(address, cur))]
    } else {
        seq![]
    }) + op_actions(ops[i], reads_follow(ops, i))
}

/// The actions of the first `n` operations.
pub open spec fn op_blocks(address: u8, ops: Seq<I2cOperation>, n: int) -> Seq<I2cAction> {
    Seq::new(n as nat, |i: int| op_block(address, ops, i)).flatten()
}

/// The bus actions of an I2C transaction with `address` (7-bit): nothing for
/// no operations; otherwise START, the address byte for the first
/// operation's direction, every operation's block, STOP.
pub open spec fn transaction_actions(address: u8, ops: Seq<I2cOperation>) -> Seq<I2cAction> {
    if ops.len() == 0 {
        seq![]
    } else {
        seq![I2cAction::Start, I2cAction::WriteAddress(address_byte(address, is_read_op(ops[0])))]
            + op_blocks(address, ops, ops.len() as int) + seq![I2cAction::Stop]
    }
}

/// Whether more bytes are read in the run of reads after operation `i`.
fn reads_follow_at(ops: &[I2cOperation], i: usize) -> (b: bool)
    requires
        i < ops@.len(),
    ensures
        b == reads_follow(ops@, i as int),
    decreases ops@.len() - i,
{
    if i >= ops.len() - 1 {
        false
    } else {
        match &ops[i + 1] {
            I2cOperation::Read(m) => if *m > 0 {
                true
            } else {
                reads_follow_at(ops, i + 1)
            },
            I2cOperation::Write(_) => false,
        }
    }
}

/// The address byte holds the 7-bit address in its upper seven bits and the
/// direction in bit 0: 1 for a read, 0 for a write.
pub proof fn lemma_address_byte(address: u8, read: bool)
    requires
        address <= 0x7F,
    ensures
        address_byte(address, read) / 2 == address,
        address_byte(address, read) % 2 == (if read { 1int } else { 0int }),
{
}

/// The address byte for `address` (at most 0x7F) and a direction.
fn make_address_byte(address: u8, read: bool) -> (b: u8)
    requires
        address <= 0x7F,
    ensures
        b == address_byte(address, read),
{
    if read {
        let b = (address << 1) | 0x01;
        assert(b == (2 * address + 1) as u8) by (bit_vector)
            requires
                address <= 0x7F,
                b == (address << 1) | 0x01,
        ;
        b
    } else {
        let b = (address << 1) & 0xFE;
        assert(b == (2 * address) as u8) by (bit_vector)
            requires
                address <= 0x7F,
                b == (address << 1) & 0xFE,
        ;
        b
    }
}

/// Plan an I2C transaction on `address`.
///
/// Fails for an address above 0x7F. No operations plan no actions.
pub fn i2c_transaction_plan(address: u8, operations: &[I2cOperation]) -> (r: Result<
    Vec<I2cAction>,
>)
    ensures
        address > 0x7F ==> r == Err::<Vec<I2cAction>, Error>(
            Error::InvalidArgument("I2C address must be 7-bit (0x00..=0x7F)"),
        ),
        address <= 0x7F ==> (r matches Ok(actions) && actions@ == transaction_actions(
            address,
            operations@,
        )),
{
    if address > 0x7F {
        return Err(Error::InvalidArgument("I2C address must be 7-bit (0x00..=0x7F)"));
    }
    let mut actions: Vec<I2cAction> = Vec::new();
    if operations.len() == 0 {
        return Ok(actions);
    }
    let first_is_read = match &operations[0] {
        I2cOperation::Read(_) => true,
        I2cOperation::Write(_) => false,
    };
    actions.push(I2cAction::Start);
    actions.push(I2cAction::WriteAddress(make_address_byte(address, first_is_read)));
    let ghost header = actions@;
    let mut prev_is_read = first_is_read;
    let mut i: usize = 0;
    assert(Seq::new(0, |j: int| op_block(address, operations@, j)) =~= Seq::<
        Seq<I2cAction>,
    >::empty());
    assert(actions@ =~= header + op_blocks(address, operations@, 0));
    while i < operations.len()
        invariant
            address <= 0x7F,
            i <= operations@.len(),
            operations@.len() > 0,
            first_is_read == is_read_op(operations@[0]),
            prev_is_read == (if i == 0 {
                first_is_read
            } else {
                is_read_op(operations@[i - 1])
            }),
            actions@ == header + op_blocks(address, operations@, i as int),
        decreases operations@.len() - i,
    {
        let ghost before = actions@;
        let cur_is_read = match &operations[i] {
            I2cOperation::Read(_) => true,
            I2cOperation::Write(_) => false,
        };
        if cur_is_read != prev_is_read {
            actions.push(I2cAction::Start);
            actions.push(I2cAction::WriteAddress(make_address_byte(address, cur_is_read)));
        }
        let ghost mid = actions@;
        match &operations[i] {
            I2cOperation::Read(n) => {
                let n = *n;
                let more = reads_follow_at(operations, i);
                let mut k: usize = 0;
                while k < n
                    invariant
                        k <= n,
                        actions@ == mid + Seq::new(
                            k as nat,
                            |m: int| I2cAction::ReadByte { ack: m < n - 1 || more },
                        ),
                    decreases n - k,
                {
                    actions.push(I2cAction::ReadByte { ack: k + 1 < n || more });
                    k += 1;
                    assert(actions@ =~= mid + Seq::new(
                        k as nat,
                        |m: int| I2cAction::ReadByte { ack: m < n - 1 || more },
                    ));
                }
            },
            I2cOperation::Write(bytes) => {
                let mut k: usize = 0;
                while k < bytes.len()
                    invariant
                        k <= bytes@.len(),
                        actions@ == mid + bytes@.take(k as int).map_values(
                            |b: u8| I2cAction::WriteData(b),
                        ),
                    decreases bytes@.len() - k,
                {
                    actions.push(I2cAction::WriteData(bytes[k]));
                    k += 1;
                    assert(actions@ =~= mid + bytes@.take(k as int).map_values(
                        |b: u8| I2cAction::WriteData(b),
                    ));
                }
                assert(bytes@.take(bytes@.len() as int) =~= bytes@);
            },
        }
        let ghost block = op_block(address, operations@, i as int);
        assert(actions@ =~= before + block);
        let ghost blocks = Seq::new(i as nat, |j: int| op_block(address, operations@, j));
        assert(Seq::new((i + 1) as nat, |j: int| op_block(address, operations@, j)) =~= blocks.push(
            block,
        ));
        proof {
            blocks.lemma_flatten_push(block);
        }
        prev_is_read = cur_is_read;
        i += 1;
    }
    actions.push(I2cAction::Stop);
    Ok(actions)
}

/// The error of a transaction whose `action` was not acknowledged.
pub open spec fn nack_error_spec(action: I2cAction) -> Option<Error> {
    match action {
        I2cAction::WriteAddress(_) => Some(Error::I2cNack("address not acknowledged")),
        I2cAction::WriteData(_) => Some(Error::I2cNack("data byte not acknowledged")),
        _ => None,
    }
}

impl I2cAction {
    /// The error a transaction fails with when this action is not
    /// acknowledged (after issuing STOP); `None` for actions that are not
    /// acknowledged by the target.
    pub fn nack_error(&self) -> (e: Option<Error>)
        ensures
            e == nack_error_spec(*self),
    {
        match self {
            I2cAction::WriteAddress(_) => Some(Error::I2cNack("address not acknowledged")),
            I2cAction::WriteData(_) => Some(Error::I2cNack("data byte not acknowledged")),
            _ => None,
        }
    }
}

// ---------------------------------------------------------------------------
// Running an I2C plan on the MPSSE
// ---------------------------------------------------------------------------
//
// The bus uses ADBUS0 as SCL and ADBUS1 as SDA (wired to ADBUS2 for reading
// back); the other low GPIO pins keep the value and direction the context
// last programmed.

/// `SET_BITS_LOW` for the I2C pins: SCL and SDA at the given levels, SCL
/// always driven, SDA driven only when `drive_sda` (released to the pull-up
/// otherwise); the other pins keep `value` and `direction`.
pub open spec fn i2c_pins(value: u8, direction: u8, scl: bool, sda: bool, drive_sda: bool) -> Seq<u8> {
    seq![
        mpsse::SET_BITS_LOW,
        (value & 0xF8) | (if scl {
            1u8
        } else {
            0u8
        }) | (if sda {
            2u8
        } else {
            0u8
        }),
        (direction & 0xF8) | 1u8 | (if drive_sda {
            2u8
        } else {
            0u8
        }),
    ]
}

/// The MPSSE commands of one bus action:
/// - START: SDA high, SCL high, SDA low, SCL low (also a repeated START);
/// - STOP: SDA low, SCL high, SDA high;
/// - a written byte: clock it out MSB first on the falling edge, release
///   SDA, clock in the acknowledge bit, flush;
/// - a read byte: release SDA, clock in 8 bits, drive SDA and clock out the
///   acknowledge bit (0 = ACK, 1 = NACK), flush.
pub open spec fn i2c_action_bytes(action: I2cAction, value: u8, direction: u8) -> Seq<u8> {
    match action {
        I2cAction::Start => i2c_pins(value, direction, false, true, true) + i2c_pins(
            value,
            direction,
            true,
            true,
            true,
        ) + i2c_pins(value, direction, true, false, true) + i2c_pins(
            value,
            direction,
            false,
            false,
            true,
        ),
        I2cAction::Stop => i2c_pins(value, direction, false, false, true) + i2c_pins(
            value,
            direction,
            true,
            false,
            true,
        ) + i2c_pins(value, direction, true, true, true),
        I2cAction::WriteAddress(b) => i2c_write_bytes(b, value, direction),
        I2cAction::WriteData(b) => i2c_write_bytes(b, value, direction),
        I2cAction::ReadByte { ack } => i2c_pins(value, direction, false, true, false) + seq![
            mpsse::DO_READ,
            0u8,
            0u8,
        ] + i2c_pins(value, direction, false, false, true) + seq![
            mpsse::DO_WRITE | mpsse::WRITE_NEG | mpsse::BITMODE,
            0u8,
            if ack {
                0x00u8
            } else {
                0xFFu8
            },
            mpsse::SEND_IMMEDIATE,
        ],
    }
}

/// The commands that write byte `b` and read back its acknowledge bit.
pub open spec fn i2c_write_bytes(b: u8, value: u8, direction: u8) -> Seq<u8> {
    i2c_pins(value, direction, false, false, true) + seq![
        mpsse::DO_WRITE | mpsse::WRITE_NEG,
        0u8,
        0u8,
        b,
    ] + i2c_pins(value, direction, false, true, false) + seq![
        mpsse::DO_READ | mpsse::BITMODE,
        0u8,
        mpsse::SEND_IMMEDIATE,
    ]
}

/// Number of answer bytes of one bus action: the acknowledge bit of a
/// written byte, the data of a read byte, nothing for START and STOP.
pub open spec fn i2c_action_read_len(action: I2cAction) -> int {
    match action {
        I2cAction::Start | I2cAction::Stop => 0,
        _ => 1,
    }
}

fn push_i2c_pins(cmd: &mut Vec<u8>, value: u8, direction: u8, scl: bool, sda: bool, drive_sda: bool)
    ensures
        final(cmd)@ == old(cmd)@ + i2c_pins(value, direction, scl, sda, drive_sda),
{
    let v = (value & 0xF8) | (if scl {
        1u8
    } else {
        0u8
    }) | (if sda {
        2u8
    } else {
        0u8
    });
    let d = (direction & 0xF8) | 1u8 | (if drive_sda {
        2u8
    } else {
        0u8
    });
    cmd.push(mpsse::SET_BITS_LOW);
    cmd.push(v);
    cmd.push(d);
}

impl I2cAction {
    /// The MPSSE commands of this action, with the other low GPIO pins kept
    /// at `value` / `direction` (the context's low GPIO state), and the
    /// number of answer bytes they produce.
    pub fn command(&self, value: u8, direction: u8) -> (r: (Vec<u8>, usize))
        ensures
            r.0@ == i2c_action_bytes(*self, value, direction),
            r.1 == i2c_action_read_len(*self),
    {
        let mut cmd: Vec<u8> = Vec::new();
        match *self {
            I2cAction::Start => {
                push_i2c_pins(&mut cmd, value, direction, false, true, true);
                push_i2c_pins(&mut cmd, value, direction, true, true, true);
                push_i2c_pins(&mut cmd, value, direction, true, false, true);
                push_i2c_pins(&mut cmd, value, direction, false, false, true);
                (cmd, 0)
            },
            I2cAction::Stop => {
                push_i2c_pins(&mut cmd, value, direction, false, false, true);
                push_i2c_pins(&mut cmd, value, direction, true, false, true);
                push_i2c_pins(&mut cmd, value, direction, true, true, true);
                (cmd, 0)
            },
            I2cAction::WriteAddress(b) | I2cAction::WriteData(b) => {
                push_i2c_pins(&mut cmd, value, direction, false, false, true);
                cmd.push(mpsse::DO_WRITE | mpsse::WRITE_NEG);
                cmd.push(0);
                cmd.push(0);
                cmd.push(b);
                push_i2c_pins(&mut cmd, value, direction, false, true, false);
                cmd.push(mpsse::DO_READ | mpsse::BITMODE);
                cmd.push(0);
                cmd.push(mpsse::SEND_IMMEDIATE);
                (cmd, 1)
            },
            I2cAction::ReadByte { ack } => {
                push_i2c_pins(&mut cmd, value, direction, false, true, false);
                cmd.push(mpsse::DO_READ);
                cmd.push(0);
                cmd.push(0);
                push_i2c_pins(&mut cmd, value, direction, false, false, true);
                cmd.push(mpsse::DO_WRITE | mpsse::WRITE_NEG | mpsse::BITMODE);
                cmd.push(0);
                cmd.push(
                    if ack {
                        0x00
                    } else {
                        0xFF
                    },
                );
                cmd.push(mpsse::SEND_IMMEDIATE);
                (cmd, 1)
            },
        }
    }
}

/// The GPIO request that puts an I2C bus in its idle state (SCL and SDA
/// driven high), keeping the other low GPIO pins as the session's context
/// last programmed them.
pub fn i2c_idle_request(s: &MpsseSession) -> (r: MpsseRequest)
    ensures
        r == i2c_idle_spec(s.spec_ctx()@),
{
    let mut pins: Vec<u8> = Vec::new();
    push_i2c_pins(&mut pins, s.ctx().gpio_low_value(), s.ctx().gpio_low_dir(), true, true, true);
    MpsseRequest::SetGpioLow { value: pins[1], direction: pins[2] }
}

/// The idle request for the context state `st`.
pub open spec fn i2c_idle_spec(st: MpsseState) -> MpsseRequest {
    let pins = i2c_pins(st.gpio_low_value, st.gpio_low_dir, true, true, true);
    MpsseRequest::SetGpioLow { value: pins[1], direction: pins[2] }
}

/// The session operations that configure an I2C bus: 3-phase data clocking
/// on H-type parts (so SDA is held through the falling SCL edge), then both
/// lines idle high.
pub fn i2c_setup_requests(s: &MpsseSession) -> (r: Vec<MpsseRequest>)
    ensures
        r@ == (if s.spec_ctx()@.is_h_type {
            seq![MpsseRequest::Enable3Phase, i2c_idle_spec(s.spec_ctx()@)]
        } else {
            seq![i2c_idle_spec(s.spec_ctx()@)]
        }),
{
    let mut r: Vec<MpsseRequest> = Vec::new();
    if s.ctx().is_h_type() {
        r.push(MpsseRequest::Enable3Phase);
    }
    r.push(i2c_idle_request(s));
    r
}

/// Number of bytes that operation `op` reads.
pub open spec fn op_read_len(op: I2cOperation) -> int {
    match op {
        I2cOperation::Read(n) => n as int,
        I2cOperation::Write(_) => 0,
    }
}

/// Number of bytes the first `i` operations read.
pub open spec fn reads_before(ops: Seq<I2cOperation>, i: int) -> int
    decreases i,
{
    if i <= 0 || i > ops.len() {
        0
    } else {
        reads_before(ops, i - 1) + op_read_len(ops[i - 1])
    }
}

proof fn lemma_reads_before_nonneg(ops: Seq<I2cOperation>, i: int)
    ensures
        reads_before(ops, i) >= 0,
    decreases i,
{
    if i > 0 && i <= ops.len() {
        lemma_reads_before_nonneg(ops, i - 1);
    }
}

proof fn lemma_reads_before_mono(ops: Seq<I2cOperation>, i: int, j: int)
    requires
        0 <= i <= j <= ops.len(),
    ensures
        0 <= reads_before(ops, i) <= reads_before(ops, j),
    decreases j - i,
{
    lemma_reads_before_nonneg(ops, i);
    if i < j {
        lemma_reads_before_mono(ops, i, j - 1);
    }
}

/// Total number of bytes a transaction of `operations` reads, or `None`
/// when it does not fit in a `usize`.
pub fn i2c_read_total(operations: &[I2cOperation]) -> (r: Option<usize>)
    ensures
        r matches Some(n) ==> n == reads_before(operations@, operations@.len() as int),
        r is None ==> reads_before(operations@, operations@.len() as int) > usize::MAX,
{
    let mut total: usize = 0;
    let mut i: usize = 0;
    while i < operations.len()
        invariant
            i <= operations@.len(),
            total == reads_before(operations@, i as int),
        decreases operations@.len() - i,
    {
        let n: usize = match &operations[i] {
            I2cOperation::Read(n) => *n,
            I2cOperation::Write(_) => 0,
        };
        match total.checked_add(n) {
            Some(t) => total = t,
            None => {
                proof {
                    lemma_reads_before_mono(operations@, i + 1, operations@.len() as int);
                }
                return None;
            },
        }
        i += 1;
    }
    Some(total)
}

/// Split the bytes a transaction read, in order, into one buffer per
/// operation: operation `i` gets the bytes after those of the reads before
/// it, as many as it reads (none for a write).
pub fn split_received(operations: &[I2cOperation], received: &[u8]) -> (r: Vec<Vec<u8>>)
    requires
        received@.len() == reads_before(operations@, operations@.len() as int),
    ensures
        r@.len() == operations@.len(),
        forall|i: int|
            0 <= i < operations@.len() ==> (#[trigger] r@[i])@ == received@.subrange(
                reads_before(operations@, i),
                reads_before(operations@, i) + op_read_len(operations@[i]),
            ),
{
    let mut r: Vec<Vec<u8>> = Vec::new();
    let mut offset: usize = 0;
    let mut i: usize = 0;
    let rlen = received.len();
    while i < operations.len()
        invariant
            i <= operations@.len(),
            rlen == received@.len(),
            received@.len() == reads_before(operations@, operations@.len() as int),
            offset == reads_before(operations@, i as int),
            r@.len() == i,
            forall|k: int|
                0 <= k < i ==> (#[trigger] r@[k])@ == received@.subrange(
                    reads_before(operations@, k),
                    reads_before(operations@, k) + op_read_len(operations@[k]),
                ),
        decreases operations@.len() - i,
    {
        proof {
            lemma_reads_before_mono(operations@, i + 1, operations@.len() as int);
        }
        let n: usize = match &operations[i] {
            I2cOperation::Read(n) => *n,
            I2cOperation::Write(_) => 0,
        };
        assert(reads_before(operations@, i + 1) == offset + n);
        let mut part: Vec<u8> = Vec::new();
        let mut k: usize = 0;
        while k < n
            invariant
                k <= n,
                rlen == received@.len(),
                offset + n <= received@.len(),
                part@ == received@.subrange(offset as int, offset + k),
            decreases n - k,
        {
            part.push(received[offset + k]);
            k += 1;
            assert(part@ =~= received@.subrange(offset as int, offset + k));
        }
        r.push(part);
        offset = offset + n;
        i += 1;
    }
    r
}

/// Level of SCL (bit 0) in a `SET_BITS_LOW` value byte.
pub open spec fn scl_high(levels: u8) -> bool {
    levels & 1u8 != 0
}

/// Level of SDA (bit 1) in a `SET_BITS_LOW` value byte.
pub open spec fn sda_high(levels: u8) -> bool {
    levels & 2u8 != 0
}

proof fn lemma_pins_bits(value: u8, direction: u8, scl: bool, sda: bool, drive_sda: bool)
    ensures
        ({
            let p = i2c_pins(value, direction, scl, sda, drive_sda);
            &&& p.len() == 3 && p[0] == 0x80u8
            &&& scl_high(p[1]) == scl && sda_high(p[1]) == sda
            &&& p[1] & 0xF8u8 == value & 0xF8u8
            &&& p[2] & 1u8 == 1u8 && (p[2] & 2u8 != 0) == drive_sda
            &&& p[2] & 0xF8u8 == direction & 0xF8u8
        }),
{
    let a: u8 = if scl { 1u8 } else { 0u8 };
    let b: u8 = if sda { 2u8 } else { 0u8 };
    let c: u8 = if drive_sda { 2u8 } else { 0u8 };
    let v = (value & 0xF8) | a | b;
    let d = (direction & 0xF8) | 1u8 | c;
    assert(v & 1u8 == a & 1u8 && v & 2u8 == b && v & 0xF8u8 == value & 0xF8u8) by (bit_vector)
        requires
            v == (value & 0xF8) | a | b,
            a == 0 || a == 1,
            b == 0 || b == 2,
    ;
    assert(d & 1u8 == 1u8 && d & 2u8 == c && d & 0xF8u8 == direction & 0xF8u8) by (bit_vector)
        requires
            d == (direction & 0xF8) | 1u8 | c,
            c == 0 || c == 2,
    ;
    assert(a & 1u8 == a) by (bit_vector)
        requires
            a == 0 || a == 1,
    ;
}

/// START and STOP are the bus conditions I2C defines, with SDA driven
/// throughout and the other low GPIO pins kept: START takes SDA from high to
/// low while SCL is high, then pulls SCL low; STOP takes SDA from low to high
/// while SCL is high, leaving both high (the idle bus).
pub proof fn lemma_start_stop(value: u8, direction: u8)
    ensures
        ({
            let t = i2c_action_bytes(I2cAction::Start, value, direction);
            &&& t.len() == 12
            &&& forall|k: int| 0 <= k < 4 ==> t[3 * k] == 0x80u8 && #[trigger] t[3 * k + 1] & 0xF8u8
                == value & 0xF8u8 && t[3 * k + 2] & 3u8 == 3u8
            &&& !scl_high(t[1]) && sda_high(t[1])
            &&& scl_high(t[4]) && sda_high(t[4])
            &&& scl_high(t[7]) && !sda_high(t[7])
            &&& !scl_high(t[10]) && !sda_high(t[10])
            &&& i2c_action_read_len(I2cAction::Start) == 0
        }),
        ({
            let t = i2c_action_bytes(I2cAction::Stop, value, direction);
            &&& t.len() == 9
            &&& forall|k: int| 0 <= k < 3 ==> t[3 * k] == 0x80u8 && #[trigger] t[3 * k + 1] & 0xF8u8
                == value & 0xF8u8 && t[3 * k + 2] & 3u8 == 3u8
            &&& !scl_high(t[1]) && !sda_high(t[1])
            &&& scl_high(t[4]) && !sda_high(t[4])
            &&& scl_high(t[7]) && sda_high(t[7])
            &&& i2c_action_read_len(I2cAction::Stop) == 0
        }),
{
    lemma_pins_bits(value, direction, false, true, true);
    lemma_pins_bits(value, direction, true, true, true);
    lemma_pins_bits(value, direction, true, false, true);
    lemma_pins_bits(value, direction, false, false, true);
    let p01 = i2c_pins(value, direction, false, true, true);
    let p11 = i2c_pins(value, direction, true, true, true);
    let p10 = i2c_pins(value, direction, true, false, true);
    let p00 = i2c_pins(value, direction, false, false, true);
    assert forall|x: u8| (x & 1u8 == 1u8 && x & 2u8 != 0) implies x & 3u8 == 3u8 by {
        assert((x & 1u8 == 1u8 && x & 2u8 != 0) ==> x & 3u8 == 3u8) by (bit_vector);
    }
    let t = i2c_action_bytes(I2cAction::Start, value, direction);
    assert(t =~= p01 + p11 + p10 + p00);
    let u = i2c_action_bytes(I2cAction::Stop, value, direction);
    assert(u =~= p00 + p10 + p11);
    assert(t[1] == p01[1] && t[2] == p01[2] && t[4] == p11[1] && t[5] == p11[2] && t[7] == p10[1]
        && t[8] == p10[2] && t[10] == p00[1] && t[11] == p00[2]);
    assert(u[1] == p00[1] && u[2] == p00[2] && u[4] == p10[1] && u[5] == p10[2] && u[7] == p11[1]
        && u[8] == p11[2]);
}

/// Writing a byte (address or data): SDA is driven, the byte itself is
/// clocked out MSB first on the falling edge (opcode 0x11, length 0), then
/// SDA is released to the target and one bit, the acknowledge, is clocked in
/// (opcode 0x22) and flushed; one answer byte comes back.
pub proof fn lemma_write_byte(b: u8, value: u8, direction: u8)
    ensures
        ({
            let t = i2c_action_bytes(I2cAction::WriteData(b), value, direction);
            &&& t == i2c_action_bytes(I2cAction::WriteAddress(b), value, direction)
            &&& t.len() == 13
            &&& t[0] == 0x80u8 && (t[2] & 2u8 != 0) && !scl_high(t[1])
            &&& t[3] == 0x11u8 && t[4] == 0u8 && t[5] == 0u8 && t[6] == b
            &&& t[7] == 0x80u8 && (t[9] & 2u8 == 0) && !scl_high(t[8])
            &&& t[10] == 0x22u8 && t[11] == 0u8 && t[12] == 0x87u8
            &&& i2c_action_read_len(I2cAction::WriteData(b)) == 1
        }),
{
    lemma_pins_bits(value, direction, false, false, true);
    lemma_pins_bits(value, direction, false, true, false);
    assert(mpsse::DO_WRITE | mpsse::WRITE_NEG == 0x11u8) by (bit_vector);
    assert(mpsse::DO_READ | mpsse::BITMODE == 0x22u8) by (bit_vector);
    let p1 = i2c_pins(value, direction, false, false, true);
    let p2 = i2c_pins(value, direction, false, true, false);
    let t = i2c_action_bytes(I2cAction::WriteData(b), value, direction);
    assert(t =~= p1 + seq![0x11u8, 0u8, 0u8, b] + p2 + seq![0x22u8, 0u8, 0x87u8]);
}

/// Reading a byte acknowledges it exactly when asked to: the commands for
/// `ReadByte { ack: true }` and `ReadByte { ack: false }` are the same
/// except for the data byte of the one-bit write (opcode 0x13, length 0)
/// that clocks the acknowledge bit out, which is 0x00 (SDA low, ACK) for
/// ack and 0xFF (SDA high, NACK) otherwise.
pub proof fn lemma_read_ack_bit(value: u8, direction: u8)
    ensures
        ({
            let t = i2c_action_bytes(I2cAction::ReadByte { ack: true }, value, direction);
            let f = i2c_action_bytes(I2cAction::ReadByte { ack: false }, value, direction);
            &&& t.len() == 13 && f.len() == 13
            &&& forall|i: int| 0 <= i < 13 && i != 11 ==> t[i] == f[i]
            &&& t[9] == 0x13u8 && t[10] == 0u8 && t[12] == 0x87u8
            &&& t[11] == 0x00u8 && f[11] == 0xFFu8
        }),
{
    let t = i2c_action_bytes(I2cAction::ReadByte { ack: true }, value, direction);
    let f = i2c_action_bytes(I2cAction::ReadByte { ack: false }, value, direction);
    let p1 = i2c_pins(value, direction, false, true, false);
    let p2 = i2c_pins(value, direction, false, false, true);
    assert(mpsse::DO_WRITE | mpsse::WRITE_NEG | mpsse::BITMODE == 0x13u8) by (bit_vector);
    assert(p1.len() == 3 && p2.len() == 3);
    let head = p1 + seq![mpsse::DO_READ, 0u8, 0u8] + p2;
    assert(t =~= head + seq![0x13u8, 0u8, 0x00u8, 0x87u8]);
    assert(f =~= head + seq![0x13u8, 0u8, 0xFFu8, 0x87u8]);
}

/// What to do after one bus action has run.
#[derive(Debug)]
pub enum I2cStep {
    /// Go on with the next action.
    Continue,
    /// The target did not acknowledge: issue STOP, run no further action,
    /// and fail the transaction with this error.
    StopWith(Error),
}

/// Whether the acknowledge bit read back after a written byte (bit 0 of the
/// answer) says NACK.
pub open spec fn is_nack(answer: u8) -> bool {
    answer & 1u8 != 0u8
}

/// The decision after `action` ran and answered `answer` (the acknowledge
/// bit of a written byte, the data of a read byte, ignored for START and
/// STOP): a written address or data byte that was not acknowledged stops the
/// transaction with that byte's NACK error; anything else continues.
pub open spec fn i2c_step_spec(action: I2cAction, answer: u8) -> I2cStep {
    match nack_error_spec(action) {
        Some(e) => if is_nack(answer) {
            I2cStep::StopWith(e)
        } else {
            I2cStep::Continue
        },
        None => I2cStep::Continue,
    }
}

/// Decide what follows `action`, given its answer byte.
pub fn i2c_step(action: I2cAction, answer: u8) -> (r: I2cStep)
    ensures
        r == i2c_step_spec(action, answer),
{
    match action.nack_error() {
        Some(e) => if answer & 1u8 != 0u8 {
            I2cStep::StopWith(e)
        } else {
            I2cStep::Continue
        },
        None => I2cStep::Continue,
    }
}

/// What an I2C transaction runs next.
#[derive(Debug)]
pub enum I2cNext {
    /// Run the planned action with this index.
    Run(usize),
    /// Issue STOP, run nothing more, and fail with this error.
    StopThenFail(Error),
    /// Every planned action ran (the plan ends with STOP): success.
    Done,
}

/// The next step of a transaction whose plan has `n` actions, after `ran`
/// of them ran and the last one's answer gave `last` ([`I2cStep::Continue`]
/// before the first): a refused byte ends the transaction with STOP and its
/// error, no later action running; otherwise the next action runs, and after
/// the last one the transaction succeeds.
pub fn i2c_next(n: usize, ran: usize, last: I2cStep) -> (r: I2cNext)
    ensures
        last matches I2cStep::StopWith(e) ==> r == I2cNext::StopThenFail(e),
        last is Continue && ran < n ==> r == I2cNext::Run(ran),
        last is Continue && ran >= n ==> r == I2cNext::Done,
{
    match last {
        I2cStep::StopWith(e) => I2cNext::StopThenFail(e),
        I2cStep::Continue => if ran < n {
            I2cNext::Run(ran)
        } else {
            I2cNext::Done
        },
    }
}

/// Two adjacent reads form one contiguous read: every byte but the very last
/// one of the second read is acknowledged, with no repeated START between
/// them.
pub proof fn lemma_adjacent_reads_nack_only_last(address: u8, a: usize, b: usize)
    requires
        b >= 1,
    ensures
        ({
            let ops = seq![I2cOperation::Read(a), I2cOperation::Read(b)];
            op_blocks(address, ops, 2) == Seq::new(
                (a + b) as nat,
                |i: int| I2cAction::ReadByte { ack: i < a + b - 1 },
            )
        }),
{
    let ops = seq![I2cOperation::Read(a), I2cOperation::Read(b)];
    assert(reads_follow(ops, 0));
    assert(!reads_follow(ops, 1));
    let f = |i: int| op_block(address, ops, i);
    let blocks = Seq::new(2, f);
    let b0 = op_block(address, ops, 0);
    let b1 = op_block(address, ops, 1);
    assert(b0 =~= Seq::new(a as nat, |i: int| I2cAction::ReadByte { ack: true }));
    assert(b1 =~= Seq::new(b as nat, |i: int| I2cAction::ReadByte { ack: i < b - 1 }));
    assert(blocks =~= seq![b0].push(b1));
    seq![b0].lemma_flatten_push(b1);
    Seq::<Seq<I2cAction>>::empty().lemma_flatten_push(b0);
    assert(seq![b0] =~= Seq::<Seq<I2cAction>>::empty().push(b0));
    assert(Seq::<Seq<I2cAction>>::empty().flatten() =~= Seq::<I2cAction>::empty());
    assert(blocks.flatten() =~= Seq::new(
        (a + b) as nat,
        |i: int| I2cAction::ReadByte { ack: i < a + b - 1 },
    ));
}

} // verus!

verus! {

// ---------------------------------------------------------------------------
// Error classification
// ---------------------------------------------------------------------------

/// Kind of an I2C failure, as the embedded I2C traits distinguish them.
#[derive(Debug, Clone, Copy, PartialEq, Eq, Structural)]
pub enum I2cErrorKind {
    /// The address byte was not acknowledged.
    NoAcknowledgeAddress,
    /// A data byte was not acknowledged.
    NoAcknowledgeData,
    /// Any other failure.
    Other,
}

/// Kind of a serial I/O failure, as the embedded I/O traits distinguish them.
#[derive(Debug, Clone, Copy, PartialEq, Eq, Structural)]
pub enum IoErrorKind {
    /// The transfer was cancelled or timed out.
    TimedOut,
    /// A write transferred nothing.
    WriteZero,
    /// Any other failure.
    Other,
}

/// Whether `needle` occurs in `haystack` at position `i`.
pub open spec fn occurs_at(haystack: Seq<char>, needle: Seq<char>, i: int) -> bool {
    0 <= i && i + needle.len() <= haystack.len() && haystack.subrange(i, i + needle.len())
        == needle
}

/// Whether `needle` occurs in `haystack`.
pub fn str_contains(haystack: &str, needle: &str) -> (r: bool)
    ensures
        r == exists|i: int| occurs_at(haystack@, needle@, i),
{
    let h = haystack.unicode_len();
    let n = needle.unicode_len();
    if n > h {
        assert forall|i: int| !occurs_at(haystack@, needle@, i) by {}
        return false;
    }
    let mut i: usize = 0;
    while i <= h - n
        invariant
            h == haystack@.len(),
            n == needle@.len(),
            n <= h,
            i <= h - n + 1,
            forall|j: int| 0 <= j < i ==> !occurs_at(haystack@, needle@, j),
        decreases h - n + 1 - i,
    {
        let mut k: usize = 0;
        let mut matched = true;
        while k < n
            invariant
                h == haystack@.len(),
                n == needle@.len(),
                i + n <= h,
                k <= n,
                matched ==> forall|m: int| 0 <= m < k ==> haystack@[i + m] == needle@[m],
                !matched ==> exists|m: int| 0 <= m < n && haystack@[i + m] != needle@[m],
            decreases n - k,
        {
            if haystack.get_char(i + k) != needle.get_char(k) {
                matched = false;
            }
            k += 1;
        }
        if matched {
            assert(haystack@.subrange(i as int, i + n) =~= needle@);
            assert(occurs_at(haystack@, needle@, i as int));
            return true;
        }
        assert(!occurs_at(haystack@, needle@, i as int)) by {
            let m = choose|m: int| 0 <= m < n && haystack@[i + m] != needle@[m];
            assert(haystack@.subrange(i as int, i + n)[m] == haystack@[i + m]);
        }
        i += 1;
    }
    assert forall|j: int| !occurs_at(haystack@, needle@, j) by {
        if 0 <= j < i {
        }
    }
    false
}

/// Classify an error for the embedded I2C traits: a NACK whose message
/// mentions "address" is an address NACK, any other NACK a data NACK.
pub fn i2c_error_kind(err: &Error) -> (k: I2cErrorKind)
    ensures
        match err {
            Error::I2cNack(msg) => if exists|i: int| occurs_at(msg@, "address"@, i) {
                k == I2cErrorKind::NoAcknowledgeAddress
            } else {
                k == I2cErrorKind::NoAcknowledgeData
            },
            _ => k == I2cErrorKind::Other,
        },
{
    match err {
        Error::I2cNack(msg) => {
            if str_contains(msg, "address") {
                I2cErrorKind::NoAcknowledgeAddress
            } else {
                I2cErrorKind::NoAcknowledgeData
            }
        },
        _ => I2cErrorKind::Other,
    }
}

/// Classify an error for the embedded I/O traits: a cancelled transfer is a
/// timeout, a zero-length write is `WriteZero`, anything else `Other`.
pub fn io_error_kind(err: &Error) -> (k: IoErrorKind)
    ensures
        err matches Error::Transfer(TransferError::Cancelled) ==> k == IoErrorKind::TimedOut,
        err matches Error::WriteZero ==> k == IoErrorKind::WriteZero,
        !(err matches Error::Transfer(TransferError::Cancelled)) && !(err matches Error::WriteZero)
            ==> k == IoErrorKind::Other,
{
    match err {
        Error::Transfer(TransferError::Cancelled) => IoErrorKind::TimedOut,
        Error::WriteZero => IoErrorKind::WriteZero,
        _ => IoErrorKind::Other,
    }
}

} // verus!

verus! {

/// The errors of unacknowledged I2C actions classify as the matching NACK
/// kind: a refused address byte as an address NACK, a refused data byte as
/// a data NACK.
pub proof fn lemma_nack_errors_classify()
    ensures
        exists|i: int| occurs_at("address not acknowledged"@, "address"@, i),
        !exists|i: int| occurs_at("data byte not acknowledged"@, "address"@, i),
{
    reveal_strlit("address not acknowledged");
    reveal_strlit("data byte not acknowledged");
    reveal_strlit("address");
    let hay = "address not acknowledged"@;
    assert(hay.subrange(0, 7) =~= "address"@);
    assert(occurs_at(hay, "address"@, 0));
    let data = "data byte not acknowledged"@;
    assert forall|i: int| !occurs_at(data, "address"@, i) by {
        if occurs_at(data, "address"@, i) {
            let w = data.subrange(i, i + 7);
            assert(w[0] == 'a');
            assert(w[1] == 'd');
            assert(data[i] == 'a');
            assert(data[i + 1] == 'd');
        }
    }
}

} // verus!
