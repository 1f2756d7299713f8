//! SPI master framing for the MPSSE.
//!
//! Supports configurable clock polarity (CPOL), clock phase (CPHA), bit order,
//! and chip-select pin management.
//!
//! # Pin Mapping
//!
//! | FTDI Pin | SPI Signal | ADBUS Bit |
//! |----------|-----------|-----------|
//! | SK       | SCLK      | 0         |
//! | DO       | MOSI      | 1         |
//! | DI       | MISO      | 2         |
//! | CS#      | CS (user) | 3-7       |
//!
//! A transaction is planned as an [`SpiPlan`]: an optional chip-select
//! assertion, a list of command steps (each possibly followed by a read of a
//! known length), and an optional chip-select deassertion that runs whether or
//! not the steps succeeded. A multi-operation transaction (the `embedded-hal`
//! `SpiDevice` contract) is planned as an [`SpiTransactionPlan`]: chip select
//! asserted once around all operations, and [`spi_transaction_next`] decides
//! which operation runs next and when to stop after a failure.

use vstd::prelude::*;

use crate::constants::mpsse;
use crate::context::FtdiDevice;
use crate::error::{Error, Result};

use super::{high_byte, low_byte, MpsseRequest, MpsseSession};

verus! {

/// Maximum bytes per single MPSSE transfer command (2-byte length field,
/// encoding len-1).
pub const MAX_MPSSE_TRANSFER: usize = 65536;

/// Bound on read-producing commands, so the MPSSE output FIFO cannot fill
/// before the host queues the corresponding USB read.
pub const MAX_MPSSE_IO_CHUNK: usize = 1024;

/// SPI clock polarity and phase mode.
///
/// | Mode | CPOL | CPHA | Description |
/// |------|------|------|-------------|
/// | 0    | 0    | 0    | Clock idle low, sample on rising edge |
/// | 1    | 0    | 1    | Clock idle low, sample on falling edge |
/// | 2    | 1    | 0    | Clock idle high, sample on falling edge |
/// | 3    | 1    | 1    | Clock idle high, sample on rising edge |
#[derive(Debug, Clone, Copy, PartialEq, Eq, Hash, Structural)]
pub enum SpiMode {
    /// CPOL=0, CPHA=0.
    Mode0,
    /// CPOL=0, CPHA=1.
    Mode1,
    /// CPOL=1, CPHA=0.
    Mode2,
    /// CPOL=1, CPHA=1.
    Mode3,
}

impl SpiMode {
    pub open spec fn spec_cpol(self) -> bool {
        self == SpiMode::Mode2 || self == SpiMode::Mode3
    }

    pub open spec fn spec_cpha(self) -> bool {
        self == SpiMode::Mode1 || self == SpiMode::Mode3
    }

    /// Clock polarity: true = idle high.
    pub fn cpol(self) -> (r: bool)
        ensures
            r == self.spec_cpol(),
    {
        match self {
            SpiMode::Mode2 | SpiMode::Mode3 => true,
            _ => false,
        }
    }

    /// Clock phase: true = sample on second edge.
    pub fn cpha(self) -> (r: bool)
        ensures
            r == self.spec_cpha(),
    {
        match self {
            SpiMode::Mode1 | SpiMode::Mode3 => true,
            _ => false,
        }
    }
}

/// The LSB-first flag for the chosen bit order.
pub open spec fn lsb_flag(lsb_first: bool) -> u8 {
    if lsb_first {
        mpsse::LSB
    } else {
        0
    }
}

/// Byte-shifting opcodes (write, read, write+read) for an SPI mode. MPSSE edge
/// names are physical: modes 0 and 3 shift data out on the falling edge and
/// sample on the rising edge, modes 1 and 2 the other way round (AN_108).
pub open spec fn spi_opcodes(mode: SpiMode, lsb_first: bool) -> (u8, u8, u8) {
    let lsb = lsb_flag(lsb_first);
    match mode {
        SpiMode::Mode0 | SpiMode::Mode3 => (
            mpsse::DO_WRITE | mpsse::WRITE_NEG | lsb,
            mpsse::DO_READ | lsb,
            mpsse::DO_WRITE | mpsse::DO_READ | mpsse::WRITE_NEG | lsb,
        ),
        SpiMode::Mode1 | SpiMode::Mode2 => (
            mpsse::DO_WRITE | lsb,
            mpsse::DO_READ | mpsse::READ_NEG | lsb,
            mpsse::DO_WRITE | mpsse::DO_READ | mpsse::READ_NEG | lsb,
        ),
    }
}

/// Everything an [`SpiDevice`] records.
pub struct SpiConfig {
    pub mode: SpiMode,
    pub lsb_first: bool,
    pub cs_pin: u8,
    pub cs_active_low: bool,
    pub write_cmd: u8,
    pub read_cmd: u8,
    pub rw_cmd: u8,
    pub dir_mask: u8,
    pub idle_value: u8,
    pub recovery_epoch: u64,
    pub device_id: u64,
}

/// The SPI device type used by the asynchronous API.
pub type AsyncSpiDevice = SpiDevice;

/// Configuration for an SPI device connected to the MPSSE.
#[derive(Debug, Clone)]
pub struct SpiDevice {
    mode: SpiMode,
    lsb_first: bool,
    cs_pin: u8,
    cs_active_low: bool,
    write_cmd: u8,
    read_cmd: u8,
    rw_cmd: u8,
    dir_mask: u8,
    idle_value: u8,
    recovery_epoch: u64,
    device_id: u64,
}

impl View for SpiDevice {
    type V = SpiConfig;

    closed spec fn view(&self) -> SpiConfig {
        SpiConfig {
            mode: self.mode,
            lsb_first: self.lsb_first,
            cs_pin: self.cs_pin,
            cs_active_low: self.cs_active_low,
            write_cmd: self.write_cmd,
            read_cmd: self.read_cmd,
            rw_cmd: self.rw_cmd,
            dir_mask: self.dir_mask,
            idle_value: self.idle_value,
            recovery_epoch: self.recovery_epoch,
            device_id: self.device_id,
        }
    }
}

/// The configuration that [`SpiDevice::with_cs_pin_config`] derives.
pub open spec fn derived_config(
    mode: SpiMode,
    cs_pin: u8,
    cs_active_low: bool,
    lsb_first: bool,
    recovery_epoch: u64,
    device_id: u64,
) -> SpiConfig {
    let (w, r, rw) = spi_opcodes(mode, lsb_first);
    SpiConfig {
        mode,
        lsb_first,
        cs_pin,
        cs_active_low,
        write_cmd: w,
        read_cmd: r,
        rw_cmd: rw,
        dir_mask: 0x03 | cs_pin,
        idle_value: (if mode.spec_cpol() {
            0x01u8
        } else {
            0x00u8
        }) | (if cs_active_low {
            cs_pin
        } else {
            0x00u8
        }),
        recovery_epoch,
        device_id,
    }
}

/// Low GPIO byte with chip select asserted.
pub open spec fn cs_asserted_value(c: SpiConfig) -> u8 {
    if c.cs_active_low {
        c.idle_value & !c.cs_pin
    } else {
        c.idle_value | c.cs_pin
    }
}

impl SpiDevice {
    /// An SPI device with every field given explicitly.
    pub fn from_parts(
        mode: SpiMode,
        lsb_first: bool,
        cs_pin: u8,
        cs_active_low: bool,
        write_cmd: u8,
        read_cmd: u8,
        rw_cmd: u8,
        dir_mask: u8,
        idle_value: u8,
        recovery_epoch: u64,
        device_id: u64,
    ) -> (spi: Self)
        ensures
            spi@ == (SpiConfig {
                mode,
                lsb_first,
                cs_pin,
                cs_active_low,
                write_cmd,
                read_cmd,
                rw_cmd,
                dir_mask,
                idle_value,
                recovery_epoch,
                device_id,
            }),
    {
        SpiDevice {
            mode,
            lsb_first,
            cs_pin,
            cs_active_low,
            write_cmd,
            read_cmd,
            rw_cmd,
            dir_mask,
            idle_value,
            recovery_epoch,
            device_id,
        }
    }

    /// SPI configuration with a custom CS pin and options, bound to the
    /// session's device.
    ///
    /// `cs_pin` is the bit mask for the CS pin in the low GPIO byte (e.g.,
    /// 0x08 for ADBUS3, 0x10 for ADBUS4); 0 leaves CS to the caller.
    /// `cs_active_low` controls the CS polarity, `lsb_first` the bit order.
    /// SK and DO become outputs, DI an input; the idle value holds the clock at
    /// its idle level and CS deasserted. Program it with
    /// [`init_request`](Self::init_request).
    pub fn with_cs_pin_config(
        s: &MpsseSession,
        mode: SpiMode,
        cs_pin: u8,
        cs_active_low: bool,
        lsb_first: bool,
    ) -> (spi: Self)
        ensures
            spi@ == derived_config(
                mode,
                cs_pin,
                cs_active_low,
                lsb_first,
                s.spec_dev().spec_recovery_epoch(),
                s.spec_dev().spec_device_id(),
            ),
    {
        let lsb = if lsb_first {
            mpsse::LSB
        } else {
            0
        };
        let (write_cmd, read_cmd, rw_cmd) = match mode {
            SpiMode::Mode0 | SpiMode::Mode3 => (
                mpsse::DO_WRITE | mpsse::WRITE_NEG | lsb,
                mpsse::DO_READ | lsb,
                mpsse::DO_WRITE | mpsse::DO_READ | mpsse::WRITE_NEG | lsb,
            ),
            SpiMode::Mode1 | SpiMode::Mode2 => (
                mpsse::DO_WRITE | lsb,
                mpsse::DO_READ | mpsse::READ_NEG | lsb,
                mpsse::DO_WRITE | mpsse::DO_READ | mpsse::READ_NEG | lsb,
            ),
        };
        let dir_mask = 0x03 | cs_pin;
        let cs_idle = if cs_active_low {
            cs_pin
        } else {
            0
        };
        let clk_idle: u8 = if mode.cpol() {
            0x01
        } else {
            0x00
        };
        let idle_value = clk_idle | cs_idle;
        let dev = s.device();
        SpiDevice {
            mode,
            lsb_first,
            cs_pin,
            cs_active_low,
            write_cmd,
            read_cmd,
            rw_cmd,
            dir_mask,
            idle_value,
            recovery_epoch: dev.recovery_epoch(),
            device_id: dev.device_id(),
        }
    }

    /// SPI configuration with CS on ADBUS3 (0x08), active low, MSB first.
    pub fn new_config(s: &MpsseSession, mode: SpiMode) -> (spi: Self)
        ensures
            spi@ == derived_config(
                mode,
                0x08,
                true,
                false,
                s.spec_dev().spec_recovery_epoch(),
                s.spec_dev().spec_device_id(),
            ),
    {
        Self::with_cs_pin_config(s, mode, 0x08, true, false)
    }

    /// The GPIO request that sets the initial pin state (clock idle, CS
    /// deasserted).
    pub fn init_request(&self) -> (r: MpsseRequest)
        ensures
            r == (MpsseRequest::SetGpioLow { value: self@.idle_value, direction: self@.dir_mask }),
    {
        MpsseRequest::SetGpioLow { value: self.idle_value, direction: self.dir_mask }
    }

    /// Fails with [`Error::InvalidMpsseContext`] unless this SPI device was
    /// configured on the session's device since its last recovery.
    pub fn ensure_current(&self, s: &MpsseSession) -> (r: Result<()>)
        ensures
            r is Ok <==> (self@.device_id == s.spec_dev().spec_device_id() && self@.recovery_epoch
                == s.spec_dev().spec_recovery_epoch()),
            r matches Err(e) ==> e == Error::InvalidMpsseContext,
    {
        let dev = s.device();
        if self.device_id == dev.device_id() && self.recovery_epoch == dev.recovery_epoch() {
            Ok(())
        } else {
            Err(Error::InvalidMpsseContext)
        }
    }

    /// Low GPIO byte with chip select asserted.
    pub fn cs_asserted_value(&self) -> (v: u8)
        ensures
            v == cs_asserted_value(self@),
    {
        if self.cs_active_low {
            self.idle_value & !self.cs_pin
        } else {
            self.idle_value | self.cs_pin
        }
    }

    /// The GPIO request that asserts chip select (none when CS is manual).
    pub fn cs_assert_request(&self) -> (r: Option<MpsseRequest>)
        ensures
            self@.cs_pin == 0 ==> r is None,
            self@.cs_pin != 0 ==> r == Some(
                MpsseRequest::SetGpioLow {
                    value: cs_asserted_value(self@),
                    direction: self@.dir_mask,
                },
            ),
    {
        if self.cs_pin == 0 {
            return None;
        }
        Some(MpsseRequest::SetGpioLow { value: self.cs_asserted_value(), direction: self.dir_mask })
    }

    /// The GPIO request that deasserts chip select, returning to the idle
    /// value (none when CS is manual).
    pub fn cs_deassert_request(&self) -> (r: Option<MpsseRequest>)
        ensures
            self@.cs_pin == 0 ==> r is None,
            self@.cs_pin != 0 ==> r == Some(
                MpsseRequest::SetGpioLow { value: self@.idle_value, direction: self@.dir_mask },
            ),
    {
        if self.cs_pin == 0 {
            return None;
        }
        Some(MpsseRequest::SetGpioLow { value: self.idle_value, direction: self.dir_mask })
    }

    /// Append a `SET_BITS_LOW` command to `cmd` that asserts CS; no-op when
    /// `cs_pin` is 0 (manual CS).
    pub fn append_cs_assert(&self, cmd: &mut Vec<u8>)
        ensures
            self@.cs_pin == 0 ==> final(cmd)@ == old(cmd)@,
            self@.cs_pin != 0 ==> final(cmd)@ == old(cmd)@ + seq![
                mpsse::SET_BITS_LOW,
                cs_asserted_value(self@),
                self@.dir_mask,
            ],
    {
        if self.cs_pin == 0 {
            return;
        }
        let value = self.cs_asserted_value();
        cmd.push(mpsse::SET_BITS_LOW);
        cmd.push(value);
        cmd.push(self.dir_mask);
    }

    /// Append a `SET_BITS_LOW` command to `cmd` that deasserts CS (returns to
    /// idle); no-op when `cs_pin` is 0 (manual CS).
    pub fn append_cs_deassert(&self, cmd: &mut Vec<u8>)
        ensures
            self@.cs_pin == 0 ==> final(cmd)@ == old(cmd)@,
            self@.cs_pin != 0 ==> final(cmd)@ == old(cmd)@ + seq![
                mpsse::SET_BITS_LOW,
                self@.idle_value,
                self@.dir_mask,
            ],
    {
        if self.cs_pin == 0 {
            return;
        }
        cmd.push(mpsse::SET_BITS_LOW);
        cmd.push(self.idle_value);
        cmd.push(self.dir_mask);
    }

    /// Same as [`append_cs_assert`](Self::append_cs_assert).
    pub fn test_append_cs_assert(&self, cmd: &mut Vec<u8>)
        ensures
            self@.cs_pin == 0 ==> final(cmd)@ == old(cmd)@,
            self@.cs_pin != 0 ==> final(cmd)@ == old(cmd)@ + seq![
                mpsse::SET_BITS_LOW,
                cs_asserted_value(self@),
                self@.dir_mask,
            ],
    {
        self.append_cs_assert(cmd);
    }

    /// Same as [`append_cs_deassert`](Self::append_cs_deassert).
    pub fn test_append_cs_deassert(&self, cmd: &mut Vec<u8>)
        ensures
            self@.cs_pin == 0 ==> final(cmd)@ == old(cmd)@,
            self@.cs_pin != 0 ==> final(cmd)@ == old(cmd)@ + seq![
                mpsse::SET_BITS_LOW,
                self@.idle_value,
                self@.dir_mask,
            ],
    {
        self.append_cs_deassert(cmd);
    }

    /// The SPI mode.
    pub fn mode(&self) -> (m: SpiMode)
        ensures
            m == self@.mode,
    {
        self.mode
    }

    /// Whether this SPI device uses LSB-first bit order.
    pub fn is_lsb_first(&self) -> (b: bool)
        ensures
            b == self@.lsb_first,
    {
        self.lsb_first
    }

    /// The CS pin bit mask (0 = manual CS).
    pub fn cs_pin(&self) -> (p: u8)
        ensures
            p == self@.cs_pin,
    {
        self.cs_pin
    }

    /// Opcode of write-only transfers.
    pub fn write_cmd(&self) -> (c: u8)
        ensures
            c == self@.write_cmd,
    {
        self.write_cmd
    }

    /// Opcode of read-only transfers.
    pub fn read_cmd(&self) -> (c: u8)
        ensures
            c == self@.read_cmd,
    {
        self.read_cmd
    }

    /// Opcode of full-duplex transfers.
    pub fn rw_cmd(&self) -> (c: u8)
        ensures
            c == self@.rw_cmd,
    {
        self.rw_cmd
    }

    /// Direction mask of the low GPIO byte.
    pub fn dir_mask(&self) -> (d: u8)
        ensures
            d == self@.dir_mask,
    {
        self.dir_mask
    }

    /// Low GPIO byte at rest (clock idle, CS deasserted).
    pub fn idle_value(&self) -> (v: u8)
        ensures
            v == self@.idle_value,
    {
        self.idle_value
    }
}

} // verus!

verus! {

// ---------------------------------------------------------------------------
// Transfer framing
// ---------------------------------------------------------------------------

/// Encode a chunk length into the 2-byte MPSSE length field (len-1,
/// little-endian; lengths above 65536 keep only the low 16 bits of len-1).
pub fn encode_len(len: usize) -> (r: (u8, u8))
    requires
        len >= 1,
    ensures
        r.0 == low_byte(len - 1),
        r.1 == high_byte(len - 1),
{
    let v = (len - 1) as u16;
    let lo = v as u8;
    let hi = (v >> 8) as u8;
    let x = len - 1;
    assert(lo == (x % 256) as u8 && hi == ((x / 256) % 256) as u8) by (bit_vector)
        requires
            v == x as u16,
            lo == v as u8,
            hi == (v >> 8) as u8,
    ;
    (lo, hi)
}

/// The `k`-th chunk of a transfer of `total` bytes: offset `1024 k`, length
/// up to 1024.
pub open spec fn io_chunk(total: int, k: int) -> (usize, usize) {
    let offset = k * 1024;
    let rest = total - offset;
    (offset as usize, (if rest < 1024 {
        rest
    } else {
        1024
    }) as usize)
}

/// Number of chunks of a transfer of `total` bytes.
pub open spec fn io_chunk_count(total: int) -> int {
    (total + 1023) / 1024
}

/// The chunks of a read-producing transfer of `total` bytes, as `(offset,
/// len)` pairs of at most [`MAX_MPSSE_IO_CHUNK`] bytes that cover `0..total`
/// in order.
pub fn io_chunks(total: usize) -> (chunks: Vec<(usize, usize)>)
    ensures
        chunks@.len() == io_chunk_count(total as int),
        forall|k: int| 0 <= k < chunks@.len() ==> #[trigger] chunks@[k] == io_chunk(total as int, k),
{
    let mut chunks: Vec<(usize, usize)> = Vec::new();
    let mut offset: usize = 0;
    while offset < total
        invariant
            offset <= total,
            offset < total ==> offset == chunks@.len() * 1024,
            offset == total ==> chunks@.len() == io_chunk_count(total as int),
            offset < total ==> chunks@.len() == offset / 1024,
            forall|k: int| 0 <= k < chunks@.len() ==> #[trigger] chunks@[k] == io_chunk(total as int, k),
        decreases total - offset,
    {
        let remaining = total - offset;
        let len = if remaining < MAX_MPSSE_IO_CHUNK {
            remaining
        } else {
            MAX_MPSSE_IO_CHUNK
        };
        let ghost k = chunks@.len() as int;
        chunks.push((offset, len));
        assert(chunks@[k] == io_chunk(total as int, k));
        offset = offset + len;
    }
    chunks
}

/// The payload of a chunk: `len` bytes of `write` starting at `offset`,
/// padded with zeros past the end of `write`.
pub open spec fn padded_payload(write: Seq<u8>, offset: int, len: int) -> Seq<u8> {
    Seq::new(len as nat, |i: int| if offset + i < write.len() {
        write[offset + i]
    } else {
        0u8
    })
}

/// A full-duplex transfer command for one chunk: opcode, length field,
/// payload (padded with zeros past the end of `write`), `SEND_IMMEDIATE`.
pub open spec fn transfer_command_spec(opcode: u8, write: Seq<u8>, offset: int, len: int) -> Seq<
    u8,
> {
    seq![opcode, low_byte(len - 1), high_byte(len - 1)] + padded_payload(write, offset, len)
        + seq![mpsse::SEND_IMMEDIATE]
}

/// A full-duplex transfer command for one chunk of `len` bytes at `offset`.
pub fn transfer_command(opcode: u8, write: &[u8], offset: usize, len: usize) -> (command: Vec<
    u8,
>)
    requires
        len >= 1,
        offset + len <= usize::MAX,
        len + 4 <= usize::MAX,
    ensures
        command@ == transfer_command_spec(opcode, write@, offset as int, len as int),
{
    let (lo, hi) = encode_len(len);
    let mut command: Vec<u8> = Vec::with_capacity(len + 4);
    command.push(opcode);
    command.push(lo);
    command.push(hi);
    let copy_len: usize = if offset < write.len() {
        if write.len() - offset < len {
            write.len() - offset
        } else {
            len
        }
    } else {
        0
    };
    let ghost header = seq![opcode, lo, hi];
    let ghost payload = padded_payload(write@, offset as int, len as int);
    let mut j: usize = 0;
    assert(command@ =~= header + payload.take(0));
    while j < copy_len
        invariant
            j <= copy_len,
            copy_len <= len,
            copy_len == 0 || offset + copy_len <= write.len(),
            copy_len < len ==> offset + copy_len >= write@.len(),
            payload == padded_payload(write@, offset as int, len as int),
            command@ == header + payload.take(j as int),
        decreases copy_len - j,
    {
        assert(offset + j < write@.len());
        command.push(write[offset + j]);
        j += 1;
        assert(command@ =~= header + payload.take(j as int));
    }
    while j < len
        invariant
            copy_len <= j <= len,
            copy_len < len ==> offset + copy_len >= write@.len(),
            payload == padded_payload(write@, offset as int, len as int),
            command@ == header + payload.take(j as int),
        decreases len - j,
    {
        command.push(0);
        j += 1;
        assert(command@ =~= header + payload.take(j as int));
    }
    assert(payload.take(len as int) =~= payload);
    command.push(mpsse::SEND_IMMEDIATE);
    command
}

} // verus!

verus! {

// ---------------------------------------------------------------------------
// Transaction plans
// ---------------------------------------------------------------------------

/// One command of an SPI transaction and the answer it produces.
#[derive(Debug)]
pub struct SpiStep {
    /// Bytes to write to the MPSSE.
    pub command: Vec<u8>,
    /// Where the answer goes in the transaction's result.
    pub offset: usize,
    /// Number of answer bytes (0 for write-only commands).
    pub read_len: usize,
}

/// An SPI transaction: assert chip select, run the steps, then deassert chip
/// select whether or not the steps succeeded.
#[derive(Debug)]
pub struct SpiPlan {
    /// GPIO request that asserts chip select, if CS is managed.
    pub cs_assert: Option<MpsseRequest>,
    /// Commands in order.
    pub steps: Vec<SpiStep>,
    /// GPIO request that deasserts chip select, if CS is managed.
    pub cs_deassert: Option<MpsseRequest>,
    /// Length of the transaction's result.
    pub result_len: usize,
}

/// Number of write-only commands for `n` bytes (at most 65536 bytes each).
pub open spec fn write_chunk_count(n: int) -> int {
    (n + 65535) / 65536
}

/// Length of the `k`-th write-only chunk of `n` bytes.
pub open spec fn write_chunk_len(n: int, k: int) -> int {
    let rest = n - k * 65536;
    if rest < 65536 {
        rest
    } else {
        65536
    }
}

/// The `k`-th write-only command: opcode, length field, payload.
pub open spec fn write_step_command(write_cmd: u8, tx: Seq<u8>, k: int) -> Seq<u8> {
    let l = write_chunk_len(tx.len() as int, k);
    seq![write_cmd, low_byte(l - 1), high_byte(l - 1)] + tx.subrange(k * 65536, k * 65536 + l)
}

/// The read-only command for a chunk of `len` bytes.
pub open spec fn read_step_command(read_cmd: u8, len: int) -> Seq<u8> {
    seq![read_cmd, low_byte(len - 1), high_byte(len - 1), mpsse::SEND_IMMEDIATE]
}

/// Whether `steps` are the write-only commands for `tx`.
pub open spec fn is_write_steps(c: SpiConfig, tx: Seq<u8>, steps: Seq<SpiStep>) -> bool {
    &&& steps.len() == write_chunk_count(tx.len() as int)
    &&& forall|k: int|
        0 <= k < steps.len() ==> (#[trigger] steps[k]).command@ == write_step_command(
            c.write_cmd,
            tx,
            k,
        ) && steps[k].offset == k * 65536 && steps[k].read_len == 0
}

/// Whether `steps` are the read-only commands for `len` bytes.
pub open spec fn is_read_steps(c: SpiConfig, len: int, steps: Seq<SpiStep>) -> bool {
    &&& steps.len() == io_chunk_count(len)
    &&& forall|k: int|
        0 <= k < steps.len() ==> (#[trigger] steps[k]).command@ == read_step_command(
            c.read_cmd,
            io_chunk(len, k).1 as int,
        ) && steps[k].offset == io_chunk(len, k).0 && steps[k].read_len == io_chunk(len, k).1
}

/// Whether `steps` are the full-duplex commands for writing `write` while
/// reading `read_len` bytes (the longer of the two sets the length).
pub open spec fn is_transfer_steps(
    c: SpiConfig,
    read_len: int,
    write: Seq<u8>,
    steps: Seq<SpiStep>,
) -> bool {
    let total = if read_len < write.len() {
        write.len() as int
    } else {
        read_len
    };
    &&& steps.len() == io_chunk_count(total)
    &&& forall|k: int|
        0 <= k < steps.len() ==> (#[trigger] steps[k]).command@ == transfer_command_spec(
            c.rw_cmd,
            write,
            io_chunk(total, k).0 as int,
            io_chunk(total, k).1 as int,
        ) && steps[k].offset == io_chunk(total, k).0 && steps[k].read_len == io_chunk(total, k).1
}

/// `buf` with `data` written at `offset`, cut off at the end of `buf`.
pub open spec fn merged(buf: Seq<u8>, offset: int, data: Seq<u8>) -> Seq<u8> {
    Seq::new(
        buf.len(),
        |i: int|
            if offset <= i < offset + data.len() {
                data[i - offset]
            } else {
                buf[i]
            },
    )
}

/// Write `data` into `buf` at `offset`, dropping what falls past the end of
/// `buf`.
pub fn merge_received(buf: &mut Vec<u8>, offset: usize, data: &[u8])
    requires
        offset + data@.len() <= usize::MAX,
    ensures
        final(buf)@ == merged(old(buf)@, offset as int, data@),
{
    let end = if offset + data.len() < buf.len() {
        offset + data.len()
    } else {
        buf.len()
    };
    let mut i: usize = offset;
    while i < end
        invariant
            offset <= i,
            i <= end || i == offset,
            end == (if offset + data@.len() < old(buf)@.len() {
                offset + data@.len()
            } else {
                old(buf)@.len() as int
            }),
            buf@.len() == old(buf)@.len(),
            forall|j: int|
                0 <= j < buf@.len() ==> #[trigger] buf@[j] == (if offset <= j < i {
                    data@[j - offset]
                } else {
                    old(buf)@[j]
                }),
        decreases end - i,
    {
        buf.set(i, data[i - offset]);
        i += 1;
    }
    assert(buf@ =~= merged(old(buf)@, offset as int, data@));
}

impl SpiDevice {
    /// Write-only commands for `tx`, in chunks of up to 65536 bytes.
    pub fn write_steps(&self, tx: &[u8]) -> (steps: Vec<SpiStep>)
        ensures
            is_write_steps(self@, tx@, steps@),
    {
        let mut steps: Vec<SpiStep> = Vec::new();
        let mut offset: usize = 0;
        while offset < tx.len()
            invariant
                offset <= tx.len(),
                offset < tx.len() ==> offset == steps@.len() * 65536,
                offset < tx.len() ==> steps@.len() == offset / 65536,
                offset == tx.len() ==> steps@.len() == write_chunk_count(tx@.len() as int),
                forall|k: int|
                    0 <= k < steps@.len() ==> (#[trigger] steps@[k]).command@ == write_step_command(
                        self@.write_cmd,
                        tx@,
                        k,
                    ) && steps@[k].offset == k * 65536 && steps@[k].read_len == 0,
            decreases tx.len() - offset,
        {
            let remaining = tx.len() - offset;
            let len = if remaining < MAX_MPSSE_TRANSFER {
                remaining
            } else {
                MAX_MPSSE_TRANSFER
            };
            let (lo, hi) = encode_len(len);
            let mut command: Vec<u8> = Vec::with_capacity(len + 3);
            command.push(self.write_cmd);
            command.push(lo);
            command.push(hi);
            let ghost k = steps@.len() as int;
            let ghost header = seq![self.write_cmd, lo, hi];
            let mut j: usize = 0;
            while j < len
                invariant
                    j <= len,
                    offset + len <= tx.len(),
                    command@ == header + tx@.subrange(offset as int, offset + j),
                decreases len - j,
            {
                command.push(tx[offset + j]);
                j += 1;
                assert(command@ =~= header + tx@.subrange(offset as int, offset + j));
            }
            steps.push(SpiStep { command, offset, read_len: 0 });
            assert(steps@[k].command@ == write_step_command(self@.write_cmd, tx@, k));
            offset = offset + len;
        }
        steps
    }

    /// Read-only commands for `len` bytes, in chunks of up to 1024 bytes.
    pub fn read_steps(&self, len: usize) -> (steps: Vec<SpiStep>)
        ensures
            is_read_steps(self@, len as int, steps@),
    {
        let chunks = io_chunks(len);
        let mut steps: Vec<SpiStep> = Vec::new();
        let mut k: usize = 0;
        while k < chunks.len()
            invariant
                k <= chunks@.len(),
                chunks@.len() == io_chunk_count(len as int),
                forall|m: int| 0 <= m < chunks@.len() ==> #[trigger] chunks@[m] == io_chunk(len as int, m),
                steps@.len() == k,
                forall|m: int|
                    0 <= m < k ==> (#[trigger] steps@[m]).command@ == read_step_command(
                        self@.read_cmd,
                        io_chunk(len as int, m).1 as int,
                    ) && steps@[m].offset == io_chunk(len as int, m).0 && steps@[m].read_len
                        == io_chunk(len as int, m).1,
            decreases chunks@.len() - k,
        {
            let (offset, chunk_len) = chunks[k];
            assert(chunks@[k as int] == io_chunk(len as int, k as int));
            assert(chunk_len >= 1) by {
                assert(k * 1024 < len);
            }
            let (lo, hi) = encode_len(chunk_len);
            let command = vec![self.read_cmd, lo, hi, mpsse::SEND_IMMEDIATE];
            steps.push(SpiStep { command, offset, read_len: chunk_len });
            k += 1;
        }
        steps
    }

    /// Full-duplex commands that write `write` (padded with zeros) while
    /// reading `read_len` bytes, in chunks of up to 1024 bytes.
    pub fn transfer_steps(&self, read_len: usize, write: &[u8]) -> (steps: Vec<SpiStep>)
        ensures
            is_transfer_steps(self@, read_len as int, write@, steps@),
    {
        let total = if read_len < write.len() {
            write.len()
        } else {
            read_len
        };
        let chunks = io_chunks(total);
        let mut steps: Vec<SpiStep> = Vec::new();
        let mut k: usize = 0;
        while k < chunks.len()
            invariant
                k <= chunks@.len(),
                chunks@.len() == io_chunk_count(total as int),
                total == (if read_len < write@.len() {
                    write@.len() as int
                } else {
                    read_len as int
                }),
                forall|m: int|
                    0 <= m < chunks@.len() ==> #[trigger] chunks@[m] == io_chunk(total as int, m),
                steps@.len() == k,
                forall|m: int|
                    0 <= m < k ==> (#[trigger] steps@[m]).command@ == transfer_command_spec(
                        self@.rw_cmd,
                        write@,
                        io_chunk(total as int, m).0 as int,
                        io_chunk(total as int, m).1 as int,
                    ) && steps@[m].offset == io_chunk(total as int, m).0 && steps@[m].read_len
                        == io_chunk(total as int, m).1,
            decreases chunks@.len() - k,
        {
            let (offset, chunk_len) = chunks[k];
            assert(chunks@[k as int] == io_chunk(total as int, k as int));
            assert(chunk_len >= 1 && offset + chunk_len <= total) by {
                assert(k * 1024 < total);
            }
            let command = transfer_command(self.rw_cmd, write, offset, chunk_len);
            steps.push(SpiStep { command, offset, read_len: chunk_len });
            k += 1;
        }
        steps
    }
}

} // verus!

verus! {

/// The request that asserts chip select, if CS is managed.
pub open spec fn cs_assert_opt(c: SpiConfig) -> Option<MpsseRequest> {
    if c.cs_pin == 0 {
        None
    } else {
        Some(MpsseRequest::SetGpioLow { value: cs_asserted_value(c), direction: c.dir_mask })
    }
}

/// The request that deasserts chip select, if CS is managed.
pub open spec fn cs_deassert_opt(c: SpiConfig) -> Option<MpsseRequest> {
    if c.cs_pin == 0 {
        None
    } else {
        Some(MpsseRequest::SetGpioLow { value: c.idle_value, direction: c.dir_mask })
    }
}

/// Why a non-empty transaction of the SPI device `c` on `dev` is refused:
/// the SPI device was configured on another device or before a recovery, or
/// the device needs recovery.
pub open spec fn plan_error(c: SpiConfig, dev: FtdiDevice) -> Option<Error> {
    if !(c.device_id == dev.spec_device_id() && c.recovery_epoch == dev.spec_recovery_epoch()) {
        Some(Error::InvalidMpsseContext)
    } else if dev.spec_recovery_required() {
        Some(Error::RecoveryRequired)
    } else {
        None
    }
}

/// Whether `p` is the empty transaction (no chip select, no commands).
pub open spec fn is_empty_plan(p: SpiPlan) -> bool {
    p.cs_assert is None && p.steps@.len() == 0 && p.cs_deassert is None && p.result_len == 0
}

/// Whether `r` is the refusal `plan_error(c, dev)` when there is one, and
/// otherwise a plan whose chip-select requests are those of `c`.
pub open spec fn plan_frame(c: SpiConfig, dev: FtdiDevice, r: Result<SpiPlan>) -> bool {
    match plan_error(c, dev) {
        Some(e) => r matches Err(e2) && e2 == e,
        None => r matches Ok(p) && p.cs_assert == cs_assert_opt(c) && p.cs_deassert
            == cs_deassert_opt(c),
    }
}

impl SpiPlan {
    /// Whether the transaction does nothing (no chip select, no commands).
    pub fn is_empty(&self) -> (b: bool)
        ensures
            b == (self.cs_assert is None && self.steps@.len() == 0 && self.cs_deassert is None),
    {
        self.cs_assert.is_none() && self.steps.len() == 0 && self.cs_deassert.is_none()
    }
}

impl SpiDevice {
    /// Check that a non-empty transaction may run, and produce its frame
    /// (chip-select requests) around `steps`.
    fn framed(&self, s: &MpsseSession, steps: Vec<SpiStep>, result_len: usize) -> (r: Result<
        SpiPlan,
    >)
        ensures
            plan_frame(self@, s.spec_dev(), r),
            r matches Ok(p) ==> p.steps == steps && p.result_len == result_len,
    {
        self.ensure_current(s)?;
        s.device().ensure_ready()?;
        Ok(
            SpiPlan {
                cs_assert: self.cs_assert_request(),
                steps,
                cs_deassert: self.cs_deassert_request(),
                result_len,
            },
        )
    }

    /// Full-duplex transfer: write `tx` and read the same number of bytes,
    /// with chip select asserted around it. An empty `tx` is a no-op.
    pub fn transfer_plan(&self, s: &MpsseSession, tx: &[u8]) -> (r: Result<SpiPlan>)
        ensures
            tx@.len() == 0 ==> (r matches Ok(p) && is_empty_plan(p)),
            tx@.len() > 0 ==> plan_frame(self@, s.spec_dev(), r),
            tx@.len() > 0 ==> (r matches Ok(p) ==> is_transfer_steps(
                self@,
                tx@.len() as int,
                tx@,
                p.steps@,
            ) && p.result_len == tx@.len()),
    {
        if tx.len() == 0 {
            return Ok(SpiPlan { cs_assert: None, steps: Vec::new(), cs_deassert: None, result_len: 0 });
        }
        let steps = self.transfer_steps(tx.len(), tx);
        self.framed(s, steps, tx.len())
    }

    /// Write-only transfer with chip select asserted around it. An empty `tx`
    /// is a no-op.
    pub fn write_plan(&self, s: &MpsseSession, tx: &[u8]) -> (r: Result<SpiPlan>)
        ensures
            tx@.len() == 0 ==> (r matches Ok(p) && is_empty_plan(p)),
            tx@.len() > 0 ==> plan_frame(self@, s.spec_dev(), r),
            tx@.len() > 0 ==> (r matches Ok(p) ==> is_write_steps(self@, tx@, p.steps@)
                && p.result_len == 0),
    {
        if tx.len() == 0 {
            return Ok(SpiPlan { cs_assert: None, steps: Vec::new(), cs_deassert: None, result_len: 0 });
        }
        let steps = self.write_steps(tx);
        self.framed(s, steps, 0)
    }

    /// Read-only transfer of `len` bytes with chip select asserted around it.
    /// Reading 0 bytes is a no-op.
    pub fn read_plan(&self, s: &MpsseSession, len: usize) -> (r: Result<SpiPlan>)
        ensures
            len == 0 ==> (r matches Ok(p) && is_empty_plan(p)),
            len > 0 ==> plan_frame(self@, s.spec_dev(), r),
            len > 0 ==> (r matches Ok(p) ==> is_read_steps(self@, len as int, p.steps@)
                && p.result_len == len),
    {
        if len == 0 {
            return Ok(SpiPlan { cs_assert: None, steps: Vec::new(), cs_deassert: None, result_len: 0 });
        }
        let steps = self.read_steps(len);
        self.framed(s, steps, len)
    }

    /// Write `tx`, then read `read_len` bytes, under a single chip-select
    /// assertion. Writing and reading nothing is a no-op.
    pub fn write_read_plan(&self, s: &MpsseSession, tx: &[u8], read_len: usize) -> (r: Result<
        SpiPlan,
    >)
        ensures
            tx@.len() == 0 && read_len == 0 ==> (r matches Ok(p) && is_empty_plan(p)),
            tx@.len() > 0 || read_len > 0 ==> plan_frame(self@, s.spec_dev(), r),
            tx@.len() > 0 || read_len > 0 ==> (r matches Ok(p) ==> {
                let nw = write_chunk_count(tx@.len() as int);
                &&& is_write_steps(self@, tx@, p.steps@.take(nw))
                &&& is_read_steps(self@, read_len as int, p.steps@.skip(nw))
                &&& p.result_len == read_len
            }),
    {
        if tx.len() == 0 && read_len == 0 {
            return Ok(SpiPlan { cs_assert: None, steps: Vec::new(), cs_deassert: None, result_len: 0 });
        }
        let mut steps = self.write_steps(tx);
        let mut reads = self.read_steps(read_len);
        let ghost w = steps@;
        let ghost rd = reads@;
        steps.append(&mut reads);
        assert(steps@.take(w.len() as int) =~= w);
        assert(steps@.skip(w.len() as int) =~= rd);
        self.framed(s, steps, read_len)
    }
}

} // verus!

verus! {

// ---------------------------------------------------------------------------
// Multi-operation transactions (the `embedded-hal` `SpiDevice` contract)
// ---------------------------------------------------------------------------

/// One operation of a multi-operation SPI transaction.
#[derive(Debug)]
pub enum SpiOp {
    /// Read this many bytes (writing zeros).
    Read(usize),
    /// Write these bytes, discarding what is read.
    Write(Vec<u8>),
    /// Write `write` while reading `read_len` bytes; the longer of the two
    /// sets the length, missing write bytes are zeros and extra read bytes
    /// are dropped.
    Transfer { read_len: usize, write: Vec<u8> },
    /// Write these bytes and read back as many, in place.
    TransferInPlace(Vec<u8>),
    /// Wait this many nanoseconds with chip select held.
    DelayNs(u32),
}

/// The commands of one operation of a transaction.
#[derive(Debug)]
pub enum SpiOpPlan {
    /// Commands in order, and the length of the operation's result.
    Commands { steps: Vec<SpiStep>, result_len: usize },
    /// A pause of this many nanoseconds.
    DelayNs(u32),
}

/// A multi-operation transaction: chip select is asserted once, every
/// operation runs in order (with no chip-select change inside), and chip
/// select is deasserted once at the end, also after a failed operation.
#[derive(Debug)]
pub struct SpiTransactionPlan {
    /// GPIO request that asserts chip select, if CS is managed.
    pub cs_assert: Option<MpsseRequest>,
    /// The operations' commands, one entry per operation.
    pub ops: Vec<SpiOpPlan>,
    /// GPIO request that deasserts chip select, if CS is managed.
    pub cs_deassert: Option<MpsseRequest>,
    /// Whether the transaction talks to the device at all (otherwise it is
    /// only delays, and runs even on a device that needs recovery).
    pub does_io: bool,
}

/// Whether `p` holds exactly the commands of operation `op` for the SPI
/// device `c`.
pub open spec fn op_steps(c: SpiConfig, op: SpiOp, p: SpiOpPlan) -> bool {
    match op {
        SpiOp::Read(n) => p matches SpiOpPlan::Commands { steps, result_len } && is_read_steps(
            c,
            n as int,
            steps@,
        ) && result_len == n,
        SpiOp::Write(tx) => p matches SpiOpPlan::Commands { steps, result_len } && is_write_steps(
            c,
            tx@,
            steps@,
        ) && result_len == 0,
        SpiOp::Transfer { read_len, write } => p matches SpiOpPlan::Commands {
            steps,
            result_len,
        } && is_transfer_steps(c, read_len as int, write@, steps@) && result_len == read_len,
        SpiOp::TransferInPlace(buf) => p matches SpiOpPlan::Commands { steps, result_len }
            && is_transfer_steps(c, buf@.len() as int, buf@, steps@) && result_len == buf@.len(),
        SpiOp::DelayNs(ns) => p matches SpiOpPlan::DelayNs(m) && m == ns,
    }
}

/// Whether operation `op` moves bytes over the bus (a delay or an empty
/// buffer does not).
pub open spec fn op_does_io(op: SpiOp) -> bool {
    match op {
        SpiOp::Read(n) => n > 0,
        SpiOp::Write(tx) => tx@.len() > 0,
        SpiOp::Transfer { read_len, write } => read_len > 0 || write@.len() > 0,
        SpiOp::TransferInPlace(buf) => buf@.len() > 0,
        SpiOp::DelayNs(_) => false,
    }
}

/// Whether a transaction of `ops` on the SPI device `c` talks to the
/// device: chip select is managed, or some operation moves bytes.
pub open spec fn transaction_does_io(c: SpiConfig, ops: Seq<SpiOp>) -> bool {
    c.cs_pin != 0 || exists|i: int| 0 <= i < ops.len() && op_does_io(#[trigger] ops[i])
}

/// Why a transaction of `ops` is refused: the SPI device was configured on
/// another device or before a recovery; or the transaction would talk to a
/// device that needs recovery. A transaction that does no I/O (no managed
/// chip select, only delays and empty buffers) is not refused for a device
/// that needs recovery.
pub open spec fn transaction_error(c: SpiConfig, dev: FtdiDevice, ops: Seq<SpiOp>) -> Option<Error> {
    if !(c.device_id == dev.spec_device_id() && c.recovery_epoch == dev.spec_recovery_epoch()) {
        Some(Error::InvalidMpsseContext)
    } else if dev.spec_recovery_required() && transaction_does_io(c, ops) {
        Some(Error::RecoveryRequired)
    } else {
        None
    }
}

/// Whether `r` is the plan of a transaction of `ops` on the SPI device `c`
/// and device `dev`: the refusal `transaction_error(c, dev, ops)` when there is one,
/// else one chip-select assertion, each operation's commands in order, and
/// one chip-select deassertion.
pub open spec fn is_transaction_plan(
    c: SpiConfig,
    dev: FtdiDevice,
    ops: Seq<SpiOp>,
    r: Result<SpiTransactionPlan>,
) -> bool {
    match transaction_error(c, dev, ops) {
        Some(e) => r matches Err(e2) && e2 == e,
        None => r matches Ok(p) && p.cs_assert == cs_assert_opt(c) && p.cs_deassert
            == cs_deassert_opt(c) && p.does_io == transaction_does_io(c, ops) && p.ops@.len()
            == ops.len() && forall|i: int|
            0 <= i < ops.len() ==> op_steps(c, #[trigger] ops[i], p.ops@[i]),
    }
}

/// Whether `op` moves bytes over the bus.
fn op_moves_bytes(op: &SpiOp) -> (b: bool)
    ensures
        b == op_does_io(*op),
{
    match op {
        SpiOp::Read(n) => *n > 0,
        SpiOp::Write(tx) => tx.len() > 0,
        SpiOp::Transfer { read_len, write } => *read_len > 0 || write.len() > 0,
        SpiOp::TransferInPlace(buf) => buf.len() > 0,
        SpiOp::DelayNs(_) => false,
    }
}

impl SpiDevice {
    /// The commands of one transaction operation (without chip select).
    pub fn op_plan(&self, op: &SpiOp) -> (p: SpiOpPlan)
        ensures
            op_steps(self@, *op, p),
    {
        match op {
            SpiOp::Read(n) => SpiOpPlan::Commands { steps: self.read_steps(*n), result_len: *n },
            SpiOp::Write(tx) => SpiOpPlan::Commands {
                steps: self.write_steps(tx.as_slice()),
                result_len: 0,
            },
            SpiOp::Transfer { read_len, write } => SpiOpPlan::Commands {
                steps: self.transfer_steps(*read_len, write.as_slice()),
                result_len: *read_len,
            },
            SpiOp::TransferInPlace(buf) => SpiOpPlan::Commands {
                steps: self.transfer_steps(buf.len(), buf.as_slice()),
                result_len: buf.len(),
            },
            SpiOp::DelayNs(ns) => SpiOpPlan::DelayNs(*ns),
        }
    }

    /// Plan a multi-operation transaction: refused when the SPI device is
    /// stale or the device needs recovery; otherwise chip select is asserted
    /// once around all operations.
    pub fn transaction_plan(&self, s: &MpsseSession, ops: &[SpiOp]) -> (r: Result<
        SpiTransactionPlan,
    >)
        ensures
            is_transaction_plan(self@, s.spec_dev(), ops@, r),
    {
        self.ensure_current(s)?;
        let mut plans: Vec<SpiOpPlan> = Vec::new();
        let mut any_io = false;
        let mut i: usize = 0;
        while i < ops.len()
            invariant
                i <= ops@.len(),
                plans@.len() == i,
                forall|j: int| 0 <= j < i ==> op_steps(self@, #[trigger] ops@[j], plans@[j]),
                any_io == exists|j: int| 0 <= j < i && op_does_io(#[trigger] ops@[j]),
            decreases ops@.len() - i,
        {
            let io = op_moves_bytes(&ops[i]);
            let p = self.op_plan(&ops[i]);
            plans.push(p);
            proof {
                if io {
                    assert(op_does_io(ops@[i as int]));
                }
                if any_io {
                    let j = choose|j: int| 0 <= j < i && op_does_io(#[trigger] ops@[j]);
                    assert(0 <= j < i + 1 && op_does_io(ops@[j]));
                }
            }
            any_io = any_io || io;
            i += 1;
        }
        let does_io = self.cs_pin != 0 || any_io;
        if does_io {
            s.device().ensure_ready()?;
        }
        Ok(
            SpiTransactionPlan {
                cs_assert: self.cs_assert_request(),
                ops: plans,
                cs_deassert: self.cs_deassert_request(),
                does_io,
            },
        )
    }
}

/// What a transaction runs next.
#[derive(Debug)]
pub enum SpiNext {
    /// Run the operation with this index.
    RunOp(usize),
    /// Deassert chip select; the transaction's outcome is then this result
    /// combined with the deassertion's by [`super::finish_with_cleanup`].
    Deassert(Result<()>),
}

/// The next step of a transaction of `n_ops` operations after `ran` of them
/// ran and the last one gave `last` (`Ok(())` before the first): a failed
/// operation goes straight to deasserting chip select with its error (no
/// later operation runs); otherwise the next operation runs, and after the
/// last one chip select is deasserted with success.
pub fn spi_transaction_next(n_ops: usize, ran: usize, last: Result<()>) -> (r: SpiNext)
    ensures
        last is Err ==> r == SpiNext::Deassert(last),
        last is Ok && ran < n_ops ==> r == SpiNext::RunOp(ran),
        last is Ok && ran >= n_ops ==> r == SpiNext::Deassert(Ok(())),
{
    match last {
        Err(e) => SpiNext::Deassert(Err(e)),
        Ok(()) => if ran < n_ops {
            SpiNext::RunOp(ran)
        } else {
            SpiNext::Deassert(Ok(()))
        },
    }
}

} // verus!

verus! {

// ---------------------------------------------------------------------------
// Laws
// ---------------------------------------------------------------------------

/// The MPSSE length field of every chunk length from 1 to 65536 decodes back
/// to that length.
pub proof fn lemma_encode_len_roundtrip(len: int)
    requires
        1 <= len <= 65536,
    ensures
        low_byte(len - 1) + 256 * high_byte(len - 1) + 1 == len,
{
}

/// The clock edges of each mode: in modes 0 and 3 data goes out on the
/// falling edge and is sampled on the rising edge (write 0x11, read 0x20,
/// both 0x31); in modes 1 and 2 data goes out on the rising edge and is
/// sampled on the falling edge (write 0x10, read 0x24, both 0x34); LSB-first
/// order adds 0x08 to each.
pub proof fn lemma_mode_edges(mode: SpiMode, lsb_first: bool)
    ensures
        ({
            let l: u8 = if lsb_first { 0x08u8 } else { 0u8 };
            spi_opcodes(mode, lsb_first) == (if mode is Mode0 || mode is Mode3 {
                ((0x11u8 + l) as u8, (0x20u8 + l) as u8, (0x31u8 + l) as u8)
            } else {
                ((0x10u8 + l) as u8, (0x24u8 + l) as u8, (0x34u8 + l) as u8)
            })
        }),
{
    let l: u8 = if lsb_first { 0x08u8 } else { 0u8 };
    assert(l == lsb_flag(lsb_first));
    assert((l == 0u8 || l == 8u8) ==> {
        &&& 0x10u8 | 0x01u8 | l == (0x11u8 + l) as u8
        &&& 0x20u8 | l == (0x20u8 + l) as u8
        &&& 0x10u8 | 0x20u8 | 0x01u8 | l == (0x31u8 + l) as u8
        &&& 0x10u8 | l == (0x10u8 + l) as u8
        &&& 0x20u8 | 0x04u8 | l == (0x24u8 + l) as u8
        &&& 0x10u8 | 0x20u8 | 0x04u8 | l == (0x34u8 + l) as u8
    }) by (bit_vector);
}

/// The byte-shifting opcodes of every mode: the full-duplex opcode combines
/// the write and read opcodes, modes 0 and 3 (and modes 1 and 2) share their
/// opcodes, and the LSB flag is set exactly when LSB-first order is chosen.
pub proof fn lemma_mode_opcodes(mode: SpiMode, lsb_first: bool)
    ensures
        ({
            let (w, r, rw) = spi_opcodes(mode, lsb_first);
            &&& rw == w | r
            &&& (w & mpsse::LSB == mpsse::LSB) == lsb_first
            &&& (r & mpsse::LSB == mpsse::LSB) == lsb_first
            &&& (rw & mpsse::LSB == mpsse::LSB) == lsb_first
            &&& w & mpsse::DO_WRITE == mpsse::DO_WRITE
            &&& r & mpsse::DO_READ == mpsse::DO_READ
        }),
        spi_opcodes(SpiMode::Mode0, lsb_first) == spi_opcodes(SpiMode::Mode3, lsb_first),
        spi_opcodes(SpiMode::Mode1, lsb_first) == spi_opcodes(SpiMode::Mode2, lsb_first),
{
    let lsb = lsb_flag(lsb_first);
    assert(lsb == 0u8 || lsb == 8u8);
    assert(forall|l: u8|
        (l == 0u8 || l == 8u8) ==> {
            &&& (0x10u8 | 0x01u8 | l) | (0x20u8 | l) == 0x10u8 | 0x20u8 | 0x01u8 | l
            &&& (0x10u8 | l) | (0x20u8 | 0x04u8 | l) == 0x10u8 | 0x20u8 | 0x04u8 | l
            &&& ((0x10u8 | 0x01u8 | l) & 0x08u8 == 0x08u8) == (l == 8u8)
            &&& ((0x20u8 | l) & 0x08u8 == 0x08u8) == (l == 8u8)
            &&& ((0x10u8 | 0x20u8 | 0x01u8 | l) & 0x08u8 == 0x08u8) == (l == 8u8)
            &&& ((0x10u8 | l) & 0x08u8 == 0x08u8) == (l == 8u8)
            &&& ((0x20u8 | 0x04u8 | l) & 0x08u8 == 0x08u8) == (l == 8u8)
            &&& ((0x10u8 | 0x20u8 | 0x04u8 | l) & 0x08u8 == 0x08u8) == (l == 8u8)
            &&& (0x10u8 | 0x01u8 | l) & 0x10u8 == 0x10u8
            &&& (0x10u8 | l) & 0x10u8 == 0x10u8
            &&& (0x20u8 | l) & 0x20u8 == 0x20u8
            &&& (0x20u8 | 0x04u8 | l) & 0x20u8 == 0x20u8
        }) by (bit_vector);
}

/// Asserting chip select changes only the CS pins, and drives them to the
/// active level; for a configuration derived by
/// [`SpiDevice::with_cs_pin_config`] with CS off the clock pin, the idle
/// value holds them at the inactive level.
pub proof fn lemma_cs_assert_changes_only_cs(c: SpiConfig)
    ensures
        cs_asserted_value(c) & !c.cs_pin == c.idle_value & !c.cs_pin,
        cs_asserted_value(c) & c.cs_pin == (if c.cs_active_low {
            0u8
        } else {
            c.cs_pin
        }),
{
    let idle = c.idle_value;
    let cs = c.cs_pin;
    assert((idle & !cs) & !cs == idle & !cs && (idle | cs) & !cs == idle & !cs && (idle & !cs)
        & cs == 0u8 && (idle | cs) & cs == cs) by (bit_vector);
}

/// In a derived configuration with CS off the clock pin, the idle value holds
/// chip select inactive.
pub proof fn lemma_idle_deasserts_cs(
    mode: SpiMode,
    cs_pin: u8,
    cs_active_low: bool,
    lsb_first: bool,
    recovery_epoch: u64,
    device_id: u64,
)
    requires
        cs_pin & 0x01 == 0,
    ensures
        ({
            let c = derived_config(mode, cs_pin, cs_active_low, lsb_first, recovery_epoch, device_id);
            &&& c.idle_value & cs_pin == (if cs_active_low {
                cs_pin
            } else {
                0u8
            })
            &&& c.idle_value & 0x01 == (if mode.spec_cpol() {
                1u8
            } else {
                0u8
            })
            &&& c.dir_mask & 0x07 == 0x03u8 | (cs_pin & 0x07)
        }),
{
    let clk: u8 = if mode.spec_cpol() {
        1u8
    } else {
        0u8
    };
    let cs = cs_pin;
    assert((clk | cs) & cs == cs && (clk | 0u8) & cs == 0u8 && (clk | cs) & 1u8 == clk && (clk
        | 0u8) & 1u8 == clk && (0x03u8 | cs) & 0x07u8 == 0x03u8 | (cs & 0x07u8)) by (bit_vector)
        requires
            clk == 0u8 || clk == 1u8,
            cs & 1u8 == 0u8,
    ;
}

/// The chunks of a transfer tile `0..total` in order: each holds 1 to 1024
/// bytes, the first starts at 0, each starts where the previous ends, and
/// the last ends at `total`.
pub proof fn lemma_io_chunks_tile(total: int)
    requires
        0 <= total <= usize::MAX,
    ensures
        forall|k: int|
            0 <= k < io_chunk_count(total) ==> 1 <= #[trigger] io_chunk(total, k).1 <= 1024
                && io_chunk(total, k).0 == k * 1024,
        forall|k: int|
            0 <= k < io_chunk_count(total) - 1 ==> #[trigger] io_chunk(total, k).0 + io_chunk(
                total,
                k,
            ).1 == io_chunk(total, k + 1).0,
        io_chunk_count(total) > 0 ==> io_chunk(total, io_chunk_count(total) - 1).0 + io_chunk(
            total,
            io_chunk_count(total) - 1,
        ).1 == total,
        io_chunk_count(total) == 0 <==> total == 0,
{
    assert forall|k: int| 0 <= k < io_chunk_count(total) implies 1 <= #[trigger] io_chunk(
        total,
        k,
    ).1 <= 1024 && io_chunk(total, k).0 == k * 1024 by {
        assert(k * 1024 < total);
    }
    assert forall|k: int| 0 <= k < io_chunk_count(total) - 1 implies #[trigger] io_chunk(
        total,
        k,
    ).0 + io_chunk(total, k).1 == io_chunk(total, k + 1).0 by {
        assert((k + 1) * 1024 < total);
    }
    if io_chunk_count(total) > 0 {
        let n = io_chunk_count(total);
        assert((n - 1) * 1024 < total <= n * 1024);
    }
}

/// Write-only commands carry `tx` unchanged: byte `j` of `tx` is payload
/// byte `j % 65536` of command `j / 65536`, and each command's length field
/// decodes to the length of its payload.
pub proof fn lemma_write_steps_carry_payload(c: SpiConfig, tx: Seq<u8>, steps: Seq<SpiStep>)
    requires
        is_write_steps(c, tx, steps),
    ensures
        forall|j: int|
            0 <= j < tx.len() ==> (#[trigger] steps[j / 65536]).command@[3 + j % 65536] == tx[j],
        forall|k: int|
            0 <= k < steps.len() ==> 1 <= (#[trigger] steps[k]).command@.len() - 3 <= 65536
                && steps[k].command@[1] + 256 * steps[k].command@[2] + 1 == steps[k].command@.len()
                - 3,
{
    assert forall|j: int| 0 <= j < tx.len() implies (#[trigger] steps[j / 65536]).command@[3 + j
        % 65536] == tx[j] by {
        let k = j / 65536;
        assert(0 <= k < steps.len());
        assert(k * 65536 <= j < k * 65536 + write_chunk_len(tx.len() as int, k));
    }
    assert forall|k: int| 0 <= k < steps.len() implies 1 <= (#[trigger] steps[k]).command@.len()
        - 3 <= 65536 && steps[k].command@[1] + 256 * steps[k].command@[2] + 1
        == steps[k].command@.len() - 3 by {
        assert(k * 65536 < tx.len());
        let l = write_chunk_len(tx.len() as int, k);
        assert(steps[k].command@.len() == 3 + l);
        lemma_encode_len_roundtrip(l);
    }
}

} // verus!
