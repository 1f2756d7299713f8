//! MPSSE (Multi-Protocol Synchronous Serial Engine) context, session and
//! command encoding.
//!
//! An [`MpsseContext`] records the clock frequency and the GPIO state that the
//! host last programmed, and the device it was initialized on. I/O goes
//! through an [`MpsseSession`], which pairs the context with a mutable borrow
//! of that device. Each session operation is described by an
//! [`MpsseRequest`]: [`MpsseSession::prepare`] validates it and yields the
//! bytes to send and the number of bytes to read back, and
//! [`MpsseSession::complete`] records its effect once the device accepted it.

pub mod blocking;
pub mod gpio;
pub mod i2c;
pub mod jtag;
pub mod spi;

pub use spi::AsyncSpiDevice;



use vstd::prelude::*;

use crate::constants::mpsse;
use crate::context::FtdiDevice;
use crate::error::{Error, Result};
use crate::types::ChipType;

verus! {

// ---------------------------------------------------------------------------
// Byte helpers
// ---------------------------------------------------------------------------

/// Low byte of `v`.
pub open spec fn low_byte(v: int) -> u8 {
    (v % 256) as u8
}

/// Second byte of `v`.
pub open spec fn high_byte(v: int) -> u8 {
    ((v / 256) % 256) as u8
}

/// Split a 16-bit value into its little-endian bytes.
pub fn split_u16(v: u16) -> (r: (u8, u8))
    ensures
        r.0 == low_byte(v as int),
        r.1 == high_byte(v as int),
        r.0 + 256 * r.1 == v,
{
    let lo = v as u8;
    let hi = (v >> 8) as u8;
    assert(lo == (v % 256) as u8) by (bit_vector)
        requires
            lo == v as u8,
    ;
    assert(hi == ((v / 256) % 256) as u8 && (v % 256) + 256 * ((v / 256) % 256) == v) by (bit_vector)
        requires
            hi == (v >> 8) as u8,
    ;
    (lo, hi)
}

// ---------------------------------------------------------------------------
// Clock configuration
// ---------------------------------------------------------------------------

/// The `TCK_DIVISOR` command for divisor register value `div`.
pub open spec fn tck_divisor_command(div: int) -> Seq<u8> {
    seq![mpsse::TCK_DIVISOR, low_byte(div), high_byte(div)]
}

/// Fastest MPSSE source clock: 60 MHz on H-type parts, 12 MHz otherwise.
pub open spec fn fast_source_hz(is_h_type: bool) -> int {
    if is_h_type {
        60_000_000
    } else {
        12_000_000
    }
}

/// Highest MPSSE clock frequency: 30 MHz on H-type parts, 6 MHz otherwise.
pub open spec fn max_clock_hz(is_h_type: bool) -> int {
    if is_h_type {
        30_000_000
    } else {
        6_000_000
    }
}

/// Source clock chosen for `clock_hz`: the undivided 60 MHz source on H-type
/// parts above 6 MHz, the 12 MHz source otherwise.
pub open spec fn clock_source_hz(is_h_type: bool, clock_hz: int) -> int {
    if is_h_type && clock_hz > 6_000_000 {
        60_000_000
    } else {
        12_000_000
    }
}

/// Prescaler command preceding the divisor: H-type parts select the source
/// explicitly, older parts have only the 12 MHz source.
pub open spec fn clock_prescaler_command(is_h_type: bool, clock_hz: int) -> Seq<u8> {
    if is_h_type {
        if clock_hz > 6_000_000 {
            seq![mpsse::DIS_DIV_5]
        } else {
            seq![mpsse::EN_DIV_5]
        }
    } else {
        seq![]
    }
}

/// Divisor register value for `clock_hz`: `source / (2 * clock_hz) - 1`,
/// saturating at 0 and clamped to 16 bits.
pub open spec fn clock_divisor_register(is_h_type: bool, clock_hz: int) -> int {
    let q = clock_source_hz(is_h_type, clock_hz) / (2 * clock_hz);
    let d = if q >= 1 {
        q - 1
    } else {
        0
    };
    if d > 0xFFFF {
        0xFFFF
    } else {
        d
    }
}

/// Clock produced by divisor register value `div`: `source / ((1 + div) * 2)`.
pub open spec fn clock_from_register(source_hz: int, div: int) -> int {
    source_hz / ((1 + div) * 2)
}

/// Whether `clock_hz` can be configured on the part.
pub open spec fn clock_in_range(is_h_type: bool, clock_hz: int) -> bool {
    0 < clock_hz <= max_clock_hz(is_h_type)
}

/// Commands that set the MPSSE clock as close to `clock_hz` as the divisor
/// allows, and the resulting frequency.
///
/// Fails for 0 Hz and above the part's maximum (30 MHz on H-type parts, 6 MHz
/// otherwise).
pub fn clock_command(is_h_type: bool, clock_hz: u32) -> (r: Result<(Vec<u8>, u32)>)
    ensures
        clock_hz == 0 ==> r == Err::<(Vec<u8>, u32), Error>(
            Error::InvalidArgument("clock frequency must be > 0"),
        ),
        clock_hz != 0 && clock_hz > max_clock_hz(is_h_type) ==> r == Err::<(Vec<u8>, u32), Error>(
            Error::InvalidArgument("clock frequency exceeds maximum for this chip"),
        ),
        clock_in_range(is_h_type, clock_hz as int) ==> (r matches Ok((cmd, actual)) && cmd@
            == clock_prescaler_command(is_h_type, clock_hz as int) + tck_divisor_command(
            clock_divisor_register(is_h_type, clock_hz as int),
        ) && actual == clock_from_register(
            clock_source_hz(is_h_type, clock_hz as int),
            clock_divisor_register(is_h_type, clock_hz as int),
        )),
{
    if clock_hz == 0 {
        return Err(Error::InvalidArgument("clock frequency must be > 0"));
    }
    let max_freq: u32 = if is_h_type {
        30_000_000
    } else {
        6_000_000
    };
    if clock_hz > max_freq {
        return Err(Error::InvalidArgument("clock frequency exceeds maximum for this chip"));
    }
    let mut cmd: Vec<u8> = Vec::with_capacity(8);
    let source: u32 = if is_h_type && clock_hz > 6_000_000 {
        cmd.push(mpsse::DIS_DIV_5);
        60_000_000
    } else {
        if is_h_type {
            cmd.push(mpsse::EN_DIV_5);
        }
        12_000_000
    };
    // clock_hz <= 30 MHz, so doubling it cannot overflow.
    let q = source / (clock_hz * 2);
    let divisor32 = q.saturating_sub(1);
    let divisor: u16 = if divisor32 > 0xFFFF {
        0xFFFF
    } else {
        divisor32 as u16
    };
    let (lo, hi) = split_u16(divisor);
    cmd.push(mpsse::TCK_DIVISOR);
    cmd.push(lo);
    cmd.push(hi);
    let actual = source / ((1 + divisor as u32) * 2);
    assert(cmd@ == clock_prescaler_command(is_h_type, clock_hz as int) + tck_divisor_command(
        clock_divisor_register(is_h_type, clock_hz as int),
    ));
    Ok((cmd, actual))
}

/// Whether `divisor` is a valid raw MPSSE clock divisor: even and at least 2.
pub open spec fn divisor_is_valid(divisor: int) -> bool {
    divisor >= 2 && divisor % 2 == 0
}

/// Prescaler command preceding a raw divisor: the 60 MHz source on H-type
/// parts, nothing on older parts.
pub open spec fn divisor_prescaler_command(is_h_type: bool) -> Seq<u8> {
    if is_h_type {
        seq![mpsse::DIS_DIV_5]
    } else {
        seq![]
    }
}

/// Commands that set the MPSSE clock to the fastest source clock divided by
/// the even `divisor` (60 MHz on H-type parts, 12 MHz otherwise), and the
/// resulting frequency.
pub fn clock_divisor_command(is_h_type: bool, divisor: u16) -> (r: Result<(Vec<u8>, u32)>)
    ensures
        !divisor_is_valid(divisor as int) ==> r == Err::<(Vec<u8>, u32), Error>(
            Error::InvalidArgument("clock divisor must be even and at least 2"),
        ),
        divisor_is_valid(divisor as int) ==> (r matches Ok((cmd, actual)) && cmd@
            == divisor_prescaler_command(is_h_type) + tck_divisor_command(divisor / 2 - 1)
            && actual == fast_source_hz(is_h_type) / (divisor as int)),
{
    if divisor < 2 || divisor % 2 != 0 {
        return Err(Error::InvalidArgument("clock divisor must be even and at least 2"));
    }
    let register_divisor = divisor / 2 - 1;
    let mut cmd: Vec<u8> = Vec::with_capacity(4);
    let source_clock: u32 = if is_h_type {
        cmd.push(mpsse::DIS_DIV_5);
        60_000_000
    } else {
        12_000_000
    };
    let (lo, hi) = split_u16(register_divisor);
    cmd.push(mpsse::TCK_DIVISOR);
    cmd.push(lo);
    cmd.push(hi);
    assert(cmd@ == divisor_prescaler_command(is_h_type) + tck_divisor_command(divisor / 2 - 1));
    Ok((cmd, source_clock / divisor as u32))
}

} // verus!

verus! {

// ---------------------------------------------------------------------------
// Context and session
// ---------------------------------------------------------------------------

/// What an [`MpsseContext`] records.
pub struct MpsseState {
    /// Configured MPSSE clock in Hz (0 until a clock is set).
    pub clock_hz: u32,
    /// Whether the device is a hi-speed ("H") part.
    pub is_h_type: bool,
    /// Last value written to the low GPIO byte.
    pub gpio_low_value: u8,
    /// Last direction mask written to the low GPIO byte.
    pub gpio_low_dir: u8,
    /// Last value written to the high GPIO byte.
    pub gpio_high_value: u8,
    /// Last direction mask written to the high GPIO byte.
    pub gpio_high_dir: u8,
    /// Recovery epoch of the device when the context was created.
    pub recovery_epoch: u64,
    /// Number of protocol reconfigurations (wrapping).
    pub protocol_epoch: u64,
    /// Identity of the device the context was created on.
    pub device_id: u64,
}

/// MPSSE context holding pin state and clock configuration.
///
/// All MPSSE I/O happens through an [`MpsseSession`] obtained from
/// [`session`](Self::session), which binds this context to the device it was
/// initialized on for the duration of the borrow.
#[derive(Debug)]
pub struct MpsseContext {
    clock_hz: u32,
    is_h_type: bool,
    gpio_low_value: u8,
    gpio_low_dir: u8,
    gpio_high_value: u8,
    gpio_high_dir: u8,
    recovery_epoch: u64,
    protocol_epoch: u64,
    device_id: u64,
}

impl View for MpsseContext {
    type V = MpsseState;

    closed spec fn view(&self) -> MpsseState {
        MpsseState {
            clock_hz: self.clock_hz,
            is_h_type: self.is_h_type,
            gpio_low_value: self.gpio_low_value,
            gpio_low_dir: self.gpio_low_dir,
            gpio_high_value: self.gpio_high_value,
            gpio_high_dir: self.gpio_high_dir,
            recovery_epoch: self.recovery_epoch,
            protocol_epoch: self.protocol_epoch,
            device_id: self.device_id,
        }
    }
}

/// Whether the context state `st` may drive `dev`: it was created on that
/// device and the device has not been recovered or re-initialized since.
pub open spec fn bound_to(st: MpsseState, dev: &FtdiDevice) -> bool {
    st.device_id == dev.spec_device_id() && st.recovery_epoch == dev.spec_recovery_epoch()
}

/// The state of a context freshly initialized on `dev`.
pub open spec fn initial_state(dev: &FtdiDevice) -> MpsseState {
    MpsseState {
        clock_hz: 0,
        is_h_type: dev.spec_chip_type().spec_is_h_type(),
        gpio_low_value: 0,
        gpio_low_dir: 0,
        gpio_high_value: 0,
        gpio_high_dir: 0,
        recovery_epoch: dev.spec_recovery_epoch(),
        protocol_epoch: 0,
        device_id: dev.spec_device_id(),
    }
}

/// The context type used by the asynchronous API.
pub type AsyncMpsseContext = MpsseContext;

/// An MPSSE context paired with a mutable borrow of its device.
///
/// Created by [`MpsseContext::session`]. Validity (device identity and
/// recovery epoch) is checked once at creation; the exclusive device borrow
/// guarantees it cannot change while the session exists. The two borrows are
/// public so that contracts can relate the context and device after the
/// session to the session's final state; I/O should go through a session
/// obtained from [`MpsseContext::session`].
pub struct MpsseSession<'a> {
    /// The borrowed context.
    pub ctx: &'a mut MpsseContext,
    /// The borrowed device.
    pub dev: &'a mut FtdiDevice,
}

impl<'a> MpsseSession<'a> {
    /// The context of this session.
    pub closed spec fn spec_ctx(&self) -> MpsseContext {
        *self.ctx
    }

    /// The device of this session.
    pub closed spec fn spec_dev(&self) -> FtdiDevice {
        *self.dev
    }
}

impl MpsseContext {
    /// Opcode the MPSSE echoes, followed by the offending opcode, when it
    /// receives a command it does not know.
    pub const BAD_COMMAND: u8 = 0xFA;

    /// Check that `dev` can enter MPSSE mode: it must not need recovery and
    /// its chip must carry an MPSSE.
    pub fn validate_init(dev: &FtdiDevice) -> (r: Result<()>)
        ensures
            dev.spec_recovery_required() ==> r == Err::<(), Error>(Error::RecoveryRequired),
            !dev.spec_recovery_required() && !dev.spec_chip_type().spec_has_mpsse() ==> r
                == Err::<(), Error>(Error::UnsupportedChip(dev.spec_chip_type())),
            !dev.spec_recovery_required() && dev.spec_chip_type().spec_has_mpsse() ==> r is Ok,
    {
        dev.ensure_ready()?;
        let chip = dev.chip_type();
        match chip {
            ChipType::Ft2232C | ChipType::Ft2232H | ChipType::Ft4232H | ChipType::Ft232H => Ok(()),
            _ => Err(Error::UnsupportedChip(chip)),
        }
    }

    /// A context for `dev` right after it entered MPSSE mode: no clock set,
    /// all GPIO pins inputs driven low, bound to the device's current
    /// recovery epoch.
    pub fn for_device(dev: &FtdiDevice) -> (ctx: Self)
        ensures
            ctx@ == initial_state(dev),
    {
        MpsseContext {
            clock_hz: 0,
            is_h_type: dev.chip_type().is_h_type(),
            gpio_low_value: 0x00,
            gpio_low_dir: 0x00,
            gpio_high_value: 0x00,
            gpio_high_dir: 0x00,
            recovery_epoch: dev.recovery_epoch(),
            protocol_epoch: 0,
            device_id: dev.device_id(),
        }
    }

    /// First step of MPSSE initialization: check the device (as
    /// [`validate_init`](Self::validate_init)), advance its recovery epoch so
    /// that every context created before is invalid, and return the fresh
    /// context bound to it. On failure the device is unchanged. The caller
    /// then switches the chip to MPSSE mode, sends
    /// [`init_command`] and sets the clock through a session.
    pub fn begin_init(dev: &mut FtdiDevice) -> (r: Result<Self>)
        ensures
            old(dev).spec_recovery_required() ==> r == Err::<Self, Error>(Error::RecoveryRequired),
            !old(dev).spec_recovery_required() && !old(dev).spec_chip_type().spec_has_mpsse() ==> r
                == Err::<Self, Error>(Error::UnsupportedChip(old(dev).spec_chip_type())),
            r is Err ==> *final(dev) == *old(dev),
            !old(dev).spec_recovery_required() && old(dev).spec_chip_type().spec_has_mpsse() ==> (
            r matches Ok(ctx) && ctx@ == initial_state(final(dev)) && bound_to(ctx@, final(dev))),
            r is Ok ==> final(dev).spec_recovery_epoch() == (old(dev).spec_recovery_epoch() + 1)
                % 0x1_0000_0000_0000_0000 && final(dev).spec_device_id() == old(
                dev,
            ).spec_device_id() && final(dev).spec_chip_type() == old(dev).spec_chip_type()
                && final(dev).spec_recovery_required() == old(dev).spec_recovery_required()
                && final(dev).spec_read_timeout() == old(dev).spec_read_timeout(),
            r is Ok ==> forall|st: MpsseState| #[trigger]
                bound_to(st, old(dev)) ==> !bound_to(st, final(dev)),
    {
        Self::validate_init(dev)?;
        dev.bump_recovery_epoch();
        Ok(Self::for_device(dev))
    }

    /// A context that is not bound to any opened device (recovery epoch,
    /// protocol epoch and device id all 0).
    pub fn test_new(is_h_type: bool) -> (ctx: Self)
        ensures
            ctx@ == (MpsseState {
                clock_hz: 0,
                is_h_type,
                gpio_low_value: 0,
                gpio_low_dir: 0,
                gpio_high_value: 0,
                gpio_high_dir: 0,
                recovery_epoch: 0,
                protocol_epoch: 0,
                device_id: 0,
            }),
    {
        MpsseContext {
            clock_hz: 0,
            is_h_type,
            gpio_low_value: 0x00,
            gpio_low_dir: 0x00,
            gpio_high_value: 0x00,
            gpio_high_dir: 0x00,
            recovery_epoch: 0,
            protocol_epoch: 0,
            device_id: 0,
        }
    }

    /// Borrow this context together with its device for MPSSE I/O.
    ///
    /// Fails with [`Error::InvalidMpsseContext`] when `dev` is not the device
    /// this context was initialized on, or when the device has been recovered
    /// since initialization.
    pub fn session<'a>(&'a mut self, dev: &'a mut FtdiDevice) -> (r: Result<MpsseSession<'a>>)
        ensures
            r is Ok <==> bound_to(old(self)@, old(dev)),
            r matches Err(e) ==> e == Error::InvalidMpsseContext,
            r matches Ok(s) ==> s.spec_ctx()@ == old(self)@ && s.spec_dev() == *old(dev),
            r matches Ok(s) ==> *final(self) == *final(s.ctx) && *final(dev) == *final(s.dev),
            r is Err ==> *final(self) == *old(self) && *final(dev) == *old(dev),
    {
        if self.device_id != dev.device_id() {
            return Err(Error::InvalidMpsseContext);
        }
        self.ensure_current(dev)?;
        Ok(MpsseSession { ctx: self, dev })
    }

    /// Fails with [`Error::InvalidMpsseContext`] when `dev` has been recovered
    /// or re-initialized since this context was created.
    pub fn ensure_current(&self, dev: &FtdiDevice) -> (r: Result<()>)
        ensures
            r is Ok <==> self@.recovery_epoch == dev.spec_recovery_epoch(),
            r matches Err(e) ==> e == Error::InvalidMpsseContext,
    {
        if self.recovery_epoch == dev.recovery_epoch() {
            Ok(())
        } else {
            Err(Error::InvalidMpsseContext)
        }
    }

    /// Configured MPSSE clock in Hz.
    pub fn clock_hz(&self) -> (hz: u32)
        ensures
            hz == self@.clock_hz,
    {
        self.clock_hz
    }

    /// Direction mask of the low GPIO byte.
    pub fn gpio_low_dir(&self) -> (d: u8)
        ensures
            d == self@.gpio_low_dir,
    {
        self.gpio_low_dir
    }

    /// Value of the low GPIO byte.
    pub fn gpio_low_value(&self) -> (v: u8)
        ensures
            v == self@.gpio_low_value,
    {
        self.gpio_low_value
    }

    /// Direction mask of the high GPIO byte.
    pub fn gpio_high_dir(&self) -> (d: u8)
        ensures
            d == self@.gpio_high_dir,
    {
        self.gpio_high_dir
    }

    /// Value of the high GPIO byte.
    pub fn gpio_high_value(&self) -> (v: u8)
        ensures
            v == self@.gpio_high_value,
    {
        self.gpio_high_value
    }

    /// Whether the device is a hi-speed ("H") part.
    pub fn is_h_type(&self) -> (h: bool)
        ensures
            h == self@.is_h_type,
    {
        self.is_h_type
    }

    /// Record a low GPIO byte written outside the session API.
    pub fn update_gpio_low_state(&mut self, value: u8, direction: u8)
        ensures
            final(self)@ == (MpsseState {
                gpio_low_value: value,
                gpio_low_dir: direction,
                ..old(self)@
            }),
    {
        self.gpio_low_value = value;
        self.gpio_low_dir = direction;
    }

    /// Fails with [`Error::MpsseBadCommand`] carrying the opcode that follows
    /// the first "bad command" marker (0xFA) that has a successor byte.
    pub fn check_bad_command(response: &[u8]) -> (r: Result<()>)
        ensures
            r is Ok <==> (forall|i: int| !bad_command_at(response@, i)),
            r matches Err(e) ==> exists|i: int|
                first_bad_command_at(response@, i) && e == Error::MpsseBadCommand(response@[i + 1]),
    {
        let mut i: usize = 0;
        while i < response.len()
            invariant
                i <= response.len(),
                forall|j: int| 0 <= j < i ==> !bad_command_at(response@, j),
            decreases response.len() - i,
        {
            if response[i] == Self::BAD_COMMAND && i + 1 < response.len() {
                assert(first_bad_command_at(response@, i as int));
                return Err(Error::MpsseBadCommand(response[i + 1]));
            }
            i += 1;
        }
        Ok(())
    }
}

/// Whether `r[i]` is a "bad command" marker followed by the offending opcode.
pub open spec fn bad_command_at(r: Seq<u8>, i: int) -> bool {
    0 <= i && i + 1 < r.len() && r[i] == 0xFA
}

/// Whether `i` is the first "bad command" marker in `r`.
pub open spec fn first_bad_command_at(r: Seq<u8>, i: int) -> bool {
    bad_command_at(r, i) && forall|j: int| 0 <= j < i ==> !bad_command_at(r, j)
}

} // verus!

verus! {

// ---------------------------------------------------------------------------
// Session operations
// ---------------------------------------------------------------------------

/// An MPSSE session operation.
#[derive(Debug, Clone, Copy, PartialEq, Eq, Structural)]
pub enum MpsseRequest {
    /// Set the clock as close to the given frequency (Hz) as possible.
    SetClock(u32),
    /// Set the clock to the fastest source clock divided by the given even
    /// divisor.
    SetClockDivisor(u16),
    /// Enable 3-phase data clocking (H-type only).
    Enable3Phase,
    /// Disable 3-phase data clocking (H-type only).
    Disable3Phase,
    /// Connect data out to data in internally.
    EnableLoopback,
    /// Disconnect the internal loopback.
    DisableLoopback,
    /// Drive the low GPIO byte.
    SetGpioLow { value: u8, direction: u8 },
    /// Drive the high GPIO byte.
    SetGpioHigh { value: u8, direction: u8 },
    /// Read the low GPIO byte.
    GetGpioLow,
    /// Read the high GPIO byte.
    GetGpioHigh,
    /// Tristate every low and high GPIO pin.
    ReleasePins,
    /// Send a bogus opcode whose "bad command" echo marks the point where the
    /// command stream is synchronized.
    Synchronize,
}

/// Bytes to send for a session operation and the number of response bytes
/// that follow.
#[derive(Debug)]
pub struct MpsseExchange {
    /// Bytes to write to the MPSSE.
    pub command: Vec<u8>,
    /// Number of bytes the MPSSE answers with.
    pub read_len: usize,
}

/// Opcode that [`MpsseRequest::Synchronize`] sends; the MPSSE answers
/// `[0xFA, 0xAB]`.
pub const BOGUS_COMMAND: u8 = 0xAB;

/// What a session operation sends and how many bytes it reads back, or why it
/// is refused.
pub open spec fn request_outcome(st: MpsseState, req: MpsseRequest) -> core::result::Result<
    (Seq<u8>, nat),
    Error,
> {
    match req {
        MpsseRequest::SetClock(hz) => if hz == 0 {
            Err(Error::InvalidArgument("clock frequency must be > 0"))
        } else if hz > max_clock_hz(st.is_h_type) {
            Err(Error::InvalidArgument("clock frequency exceeds maximum for this chip"))
        } else {
            Ok(
                (
                    clock_prescaler_command(st.is_h_type, hz as int) + tck_divisor_command(
                        clock_divisor_register(st.is_h_type, hz as int),
                    ),
                    0,
                ),
            )
        },
        MpsseRequest::SetClockDivisor(d) => if !divisor_is_valid(d as int) {
            Err(Error::InvalidArgument("clock divisor must be even and at least 2"))
        } else {
            Ok(
                (
                    divisor_prescaler_command(st.is_h_type) + tck_divisor_command(d / 2 - 1),
                    0,
                ),
            )
        },
        MpsseRequest::Enable3Phase => if !st.is_h_type {
            Err(Error::InvalidArgument("3-phase clocking only supported on H-type chips"))
        } else {
            Ok((seq![mpsse::EN_3_PHASE], 0))
        },
        MpsseRequest::Disable3Phase => if !st.is_h_type {
            Err(Error::InvalidArgument("3-phase clocking only supported on H-type chips"))
        } else {
            Ok((seq![mpsse::DIS_3_PHASE], 0))
        },
        MpsseRequest::EnableLoopback => Ok((seq![mpsse::LOOPBACK_START], 0)),
        MpsseRequest::DisableLoopback => Ok((seq![mpsse::LOOPBACK_END], 0)),
        MpsseRequest::SetGpioLow { value, direction } => Ok(
            (seq![mpsse::SET_BITS_LOW, value, direction], 0),
        ),
        MpsseRequest::SetGpioHigh { value, direction } => Ok(
            (seq![mpsse::SET_BITS_HIGH, value, direction], 0),
        ),
        MpsseRequest::GetGpioLow => Ok((seq![mpsse::GET_BITS_LOW, mpsse::SEND_IMMEDIATE], 1)),
        MpsseRequest::GetGpioHigh => Ok((seq![mpsse::GET_BITS_HIGH, mpsse::SEND_IMMEDIATE], 1)),
        MpsseRequest::ReleasePins => Ok(
            (seq![mpsse::SET_BITS_LOW, 0, 0, mpsse::SET_BITS_HIGH, 0, 0], 0),
        ),
        MpsseRequest::Synchronize => Ok((seq![BOGUS_COMMAND, mpsse::SEND_IMMEDIATE], 0)),
    }
}

/// The context state after the device accepted a session operation.
pub open spec fn request_effect(st: MpsseState, req: MpsseRequest) -> MpsseState {
    match req {
        MpsseRequest::SetClock(hz) => if clock_in_range(st.is_h_type, hz as int) {
            MpsseState {
                clock_hz: clock_from_register(
                    clock_source_hz(st.is_h_type, hz as int),
                    clock_divisor_register(st.is_h_type, hz as int),
                ) as u32,
                ..st
            }
        } else {
            st
        },
        MpsseRequest::SetClockDivisor(d) => if divisor_is_valid(d as int) {
            MpsseState { clock_hz: (fast_source_hz(st.is_h_type) / (d as int)) as u32, ..st }
        } else {
            st
        },
        MpsseRequest::Enable3Phase | MpsseRequest::Disable3Phase => if st.is_h_type {
            MpsseState {
                protocol_epoch: ((st.protocol_epoch + 1) % 0x1_0000_0000_0000_0000) as u64,
                ..st
            }
        } else {
            st
        },
        MpsseRequest::SetGpioLow { value, direction } => MpsseState {
            gpio_low_value: value,
            gpio_low_dir: direction,
            ..st
        },
        MpsseRequest::SetGpioHigh { value, direction } => MpsseState {
            gpio_high_value: value,
            gpio_high_dir: direction,
            ..st
        },
        MpsseRequest::ReleasePins => MpsseState {
            gpio_low_value: 0,
            gpio_low_dir: 0,
            gpio_high_value: 0,
            gpio_high_dir: 0,
            ..st
        },
        _ => st,
    }
}

impl<'a> MpsseSession<'a> {
    /// Read-only access to the underlying context state.
    pub fn ctx(&self) -> (c: &MpsseContext)
        ensures
            *c == self.spec_ctx(),
    {
        self.ctx
    }

    /// Read-only access to the device of this session.
    pub fn device(&self) -> (d: &FtdiDevice)
        ensures
            *d == self.spec_dev(),
    {
        self.dev
    }

    /// Record on the session's device that a stateful operation was
    /// interrupted, when `interrupted`; nothing else changes (in particular
    /// the device's identity and recovery epoch, and the context).
    pub fn note_interruption(&mut self, interrupted: bool)
        ensures
            final(self).spec_ctx() == old(self).spec_ctx(),
            final(self).spec_dev().spec_recovery_required() == (old(
                self,
            ).spec_dev().spec_recovery_required() || interrupted),
            final(self).spec_dev().spec_chip_type() == old(self).spec_dev().spec_chip_type(),
            final(self).spec_dev().spec_device_id() == old(self).spec_dev().spec_device_id(),
            final(self).spec_dev().spec_recovery_epoch() == old(
                self,
            ).spec_dev().spec_recovery_epoch(),
            final(self).spec_dev().spec_read_timeout() == old(self).spec_dev().spec_read_timeout(),
            *final(final(self).ctx) == *final(old(self).ctx),
            *final(final(self).dev) == *final(old(self).dev),
    {
        if interrupted {
            self.dev.mark_recovery_required();
        }
    }

    /// Number of protocol reconfigurations since the context was created.
    pub fn protocol_epoch(&self) -> (e: u64)
        ensures
            e == self.spec_ctx()@.protocol_epoch,
    {
        self.ctx.protocol_epoch
    }

    /// Advance the protocol epoch (wrapping), invalidating bus objects
    /// configured for the previous protocol; returns the new epoch.
    pub fn bump_protocol_epoch(&mut self) -> (e: u64)
        ensures
            e == (old(self).spec_ctx()@.protocol_epoch + 1) % 0x1_0000_0000_0000_0000,
            final(self).spec_ctx()@ == (MpsseState { protocol_epoch: e, ..old(self).spec_ctx()@ }),
            final(self).spec_dev() == old(self).spec_dev(),
            *final(final(self).ctx) == *final(old(self).ctx),
            *final(final(self).dev) == *final(old(self).dev),
    {
        self.ctx.protocol_epoch = self.ctx.protocol_epoch.wrapping_add(1);
        self.ctx.protocol_epoch
    }

    /// Validate a session operation and encode it.
    pub fn prepare(&self, req: MpsseRequest) -> (r: Result<MpsseExchange>)
        ensures
            r is Ok <==> request_outcome(self.spec_ctx()@, req) is Ok,
            r matches Ok(x) ==> (request_outcome(self.spec_ctx()@, req) matches Ok((c, n))
                && x.command@ == c && x.read_len == n),
            r matches Err(e) ==> request_outcome(self.spec_ctx()@, req) == Err::<
                (Seq<u8>, nat),
                Error,
            >(e),
    {
        let is_h = self.ctx.is_h_type;
        match req {
            MpsseRequest::SetClock(hz) => {
                let (command, _) = clock_command(is_h, hz)?;
                Ok(MpsseExchange { command, read_len: 0 })
            },
            MpsseRequest::SetClockDivisor(d) => {
                let (command, _) = clock_divisor_command(is_h, d)?;
                Ok(MpsseExchange { command, read_len: 0 })
            },
            MpsseRequest::Enable3Phase => {
                if !is_h {
                    return Err(
                        Error::InvalidArgument("3-phase clocking only supported on H-type chips"),
                    );
                }
                Ok(MpsseExchange { command: vec![mpsse::EN_3_PHASE], read_len: 0 })
            },
            MpsseRequest::Disable3Phase => {
                if !is_h {
                    return Err(
                        Error::InvalidArgument("3-phase clocking only supported on H-type chips"),
                    );
                }
                Ok(MpsseExchange { command: vec![mpsse::DIS_3_PHASE], read_len: 0 })
            },
            MpsseRequest::EnableLoopback => Ok(
                MpsseExchange { command: vec![mpsse::LOOPBACK_START], read_len: 0 },
            ),
            MpsseRequest::DisableLoopback => Ok(
                MpsseExchange { command: vec![mpsse::LOOPBACK_END], read_len: 0 },
            ),
            MpsseRequest::SetGpioLow { value, direction } => Ok(
                MpsseExchange { command: vec![mpsse::SET_BITS_LOW, value, direction], read_len: 0 },
            ),
            MpsseRequest::SetGpioHigh { value, direction } => Ok(
                MpsseExchange {
                    command: vec![mpsse::SET_BITS_HIGH, value, direction],
                    read_len: 0,
                },
            ),
            MpsseRequest::GetGpioLow => Ok(
                MpsseExchange {
                    command: vec![mpsse::GET_BITS_LOW, mpsse::SEND_IMMEDIATE],
                    read_len: 1,
                },
            ),
            MpsseRequest::GetGpioHigh => Ok(
                MpsseExchange {
                    command: vec![mpsse::GET_BITS_HIGH, mpsse::SEND_IMMEDIATE],
                    read_len: 1,
                },
            ),
            MpsseRequest::ReleasePins => Ok(
                MpsseExchange {
                    command: vec![mpsse::SET_BITS_LOW, 0, 0, mpsse::SET_BITS_HIGH, 0, 0],
                    read_len: 0,
                },
            ),
            MpsseRequest::Synchronize => Ok(
                MpsseExchange {
                    command: vec![BOGUS_COMMAND, mpsse::SEND_IMMEDIATE],
                    read_len: 0,
                },
            ),
        }
    }

    /// Record the effect of a session operation that the device accepted.
    /// Refused operations (those [`prepare`](Self::prepare) rejects) leave
    /// the context unchanged.
    pub fn complete(&mut self, req: MpsseRequest)
        ensures
            final(self).spec_ctx()@ == request_effect(old(self).spec_ctx()@, req),
            final(self).spec_dev() == old(self).spec_dev(),
            *final(final(self).ctx) == *final(old(self).ctx),
            *final(final(self).dev) == *final(old(self).dev),
    {
        let is_h = self.ctx.is_h_type;
        match req {
            MpsseRequest::SetClock(hz) => {
                if let Ok((_, actual)) = clock_command(is_h, hz) {
                    self.ctx.clock_hz = actual;
                }
            },
            MpsseRequest::SetClockDivisor(d) => {
                if let Ok((_, actual)) = clock_divisor_command(is_h, d) {
                    self.ctx.clock_hz = actual;
                }
            },
            MpsseRequest::Enable3Phase | MpsseRequest::Disable3Phase => {
                if is_h {
                    self.bump_protocol_epoch();
                }
            },
            MpsseRequest::SetGpioLow { value, direction } => {
                self.ctx.gpio_low_value = value;
                self.ctx.gpio_low_dir = direction;
            },
            MpsseRequest::SetGpioHigh { value, direction } => {
                self.ctx.gpio_high_value = value;
                self.ctx.gpio_high_dir = direction;
            },
            MpsseRequest::ReleasePins => {
                self.ctx.gpio_low_value = 0;
                self.ctx.gpio_low_dir = 0;
                self.ctx.gpio_high_value = 0;
                self.ctx.gpio_high_dir = 0;
            },
            _ => {},
        }
    }
}

} // verus!

verus! {

// ---------------------------------------------------------------------------
// Initialization, synchronization, raw commands
// ---------------------------------------------------------------------------

/// Commands sent right after entering MPSSE mode: disconnect the loopback
/// and, on H-type parts, disable adaptive clocking.
pub open spec fn init_command_spec(is_h_type: bool) -> Seq<u8> {
    if is_h_type {
        seq![mpsse::LOOPBACK_END, mpsse::DIS_ADAPTIVE]
    } else {
        seq![mpsse::LOOPBACK_END]
    }
}

/// Commands sent right after entering MPSSE mode.
pub fn init_command(is_h_type: bool) -> (cmd: Vec<u8>)
    ensures
        cmd@ == init_command_spec(is_h_type),
{
    let mut cmd: Vec<u8> = Vec::with_capacity(16);
    cmd.push(mpsse::LOOPBACK_END);
    if is_h_type {
        cmd.push(mpsse::DIS_ADAPTIVE);
    }
    cmd
}

/// Whether the synchronization echo `[0xFA, 0xAB]` ends at `bytes[i]`, where
/// `previous_was_bad_command` tells whether the byte before `bytes[0]` was
/// the "bad command" marker.
pub open spec fn sync_echo_at(previous_was_bad_command: bool, bytes: Seq<u8>, i: int) -> bool {
    0 <= i < bytes.len() && bytes[i] == BOGUS_COMMAND && (if i == 0 {
        previous_was_bad_command
    } else {
        bytes[i - 1] == MpsseContext::BAD_COMMAND
    })
}

/// Scan one chunk of MPSSE output for the synchronization echo.
///
/// Returns whether the echo was found and, when it was not, whether the last
/// byte seen is the "bad command" marker (to carry into the next chunk).
pub fn scan_sync_response(previous_was_bad_command: bool, bytes: &[u8]) -> (r: (bool, bool))
    ensures
        r.0 <==> exists|i: int| sync_echo_at(previous_was_bad_command, bytes@, i),
        !r.0 ==> r.1 == (if bytes@.len() == 0 {
            previous_was_bad_command
        } else {
            bytes@.last() == MpsseContext::BAD_COMMAND
        }),
{
    let mut previous = previous_was_bad_command;
    let mut i: usize = 0;
    while i < bytes.len()
        invariant
            i <= bytes.len(),
            forall|j: int| 0 <= j < i ==> !sync_echo_at(previous_was_bad_command, bytes@, j),
            previous == (if i == 0 {
                previous_was_bad_command
            } else {
                bytes@[i - 1] == MpsseContext::BAD_COMMAND
            }),
        decreases bytes.len() - i,
    {
        let byte = bytes[i];
        if previous && byte == BOGUS_COMMAND {
            assert(sync_echo_at(previous_was_bad_command, bytes@, i as int));
            return (true, previous);
        }
        previous = byte == MpsseContext::BAD_COMMAND;
        i += 1;
    }
    (false, previous)
}

/// What synchronization does after one chunk of MPSSE output was read.
#[derive(Debug, Clone, Copy, PartialEq, Eq, Structural)]
pub enum SyncAction {
    /// The echo was seen: the command stream is synchronized.
    Found,
    /// Read on; the flag tells whether the last byte seen was the "bad
    /// command" marker.
    Continue(bool),
    /// The read timeout passed without the echo: fail with
    /// [`Error::Timeout`].
    TimedOut,
}

/// The decision after reading `chunk` during synchronization, `elapsed_ns`
/// after it began, with read timeout `timeout_ns`: the echo (possibly
/// straddling the previous chunk, as `carry` tells) ends synchronization even
/// if the time is up; otherwise the time being up is a timeout; otherwise
/// reading goes on, carrying whether `chunk` ended with the "bad command"
/// marker.
pub open spec fn sync_step_spec(carry: bool, elapsed_ns: u64, timeout_ns: u64, chunk: Seq<u8>) -> SyncAction {
    if exists|i: int| sync_echo_at(carry, chunk, i) {
        SyncAction::Found
    } else if elapsed_ns >= timeout_ns {
        SyncAction::TimedOut
    } else {
        SyncAction::Continue(
            if chunk.len() == 0 {
                carry
            } else {
                chunk.last() == MpsseContext::BAD_COMMAND
            },
        )
    }
}

/// One step of synchronization. Called first with an empty chunk (which
/// checks the deadline before the first read), then after each read with
/// what it returned and the time elapsed since synchronization began.
pub fn sync_step(carry: bool, elapsed_ns: u64, timeout_ns: u64, chunk: &[u8]) -> (r: SyncAction)
    ensures
        r == sync_step_spec(carry, elapsed_ns, timeout_ns, chunk@),
{
    let (found, next_carry) = scan_sync_response(carry, chunk);
    if found {
        SyncAction::Found
    } else if elapsed_ns >= timeout_ns {
        SyncAction::TimedOut
    } else {
        SyncAction::Continue(next_carry)
    }
}

/// A raw command followed by `SEND_IMMEDIATE`, so that its answer is flushed
/// to the host at once.
pub fn command_with_flush(cmd: &[u8]) -> (full: Vec<u8>)
    requires
        cmd@.len() < usize::MAX,
    ensures
        full@ == cmd@.push(mpsse::SEND_IMMEDIATE),
{
    let mut full: Vec<u8> = Vec::with_capacity(cmd.len() + 1);
    let mut i: usize = 0;
    while i < cmd.len()
        invariant
            i <= cmd.len(),
            full@ == cmd@.take(i as int),
        decreases cmd.len() - i,
    {
        full.push(cmd[i]);
        i += 1;
        assert(full@ =~= cmd@.take(i as int));
    }
    assert(cmd@.take(cmd@.len() as int) =~= cmd@);
    full.push(mpsse::SEND_IMMEDIATE);
    full
}

/// The outcome of an operation that has a cleanup step which runs whether
/// or not the operation succeeded (such as deasserting chip select): the
/// operation's error if it failed, else the cleanup's error, else the
/// operation's value.
pub fn finish_with_cleanup<T>(operation: Result<T>, cleanup: Result<()>) -> (r: Result<T>)
    ensures
        operation is Err ==> r == operation,
        operation is Ok ==> (cleanup matches Err(e) ==> r == Err::<T, Error>(e)),
        operation is Ok && cleanup is Ok ==> r == operation,
{
    match operation {
        Err(e) => Err(e),
        Ok(v) => match cleanup {
            Err(e) => Err(e),
            Ok(()) => Ok(v),
        },
    }
}

// ---------------------------------------------------------------------------
// Laws
// ---------------------------------------------------------------------------

/// Recovering a device (or re-initializing its MPSSE) invalidates every
/// context that was bound to it: the device keeps its identity but its
/// recovery epoch advances, so [`MpsseContext::session`] refuses the old
/// context.
pub proof fn lemma_recovery_invalidates_context(st: MpsseState, before: FtdiDevice, after: FtdiDevice)
    requires
        bound_to(st, &before),
        after.spec_device_id() == before.spec_device_id(),
        after.spec_recovery_epoch() == (before.spec_recovery_epoch() + 1) % 0x1_0000_0000_0000_0000,
    ensures
        !bound_to(st, &after),
{
}

/// Initialization followed by setting the clock leaves a context bound to
/// the device, with every GPIO pin an input driven low and the clock that
/// the clock command achieves; contexts bound before initialization are no
/// longer bound.
pub proof fn lemma_init_then_clock(before: FtdiDevice, after: FtdiDevice, clock_hz: u32)
    requires
        after.spec_recovery_epoch() == (before.spec_recovery_epoch() + 1) % 0x1_0000_0000_0000_0000,
        after.spec_device_id() == before.spec_device_id(),
        clock_in_range(after.spec_chip_type().spec_is_h_type(), clock_hz as int),
    ensures
        ({
            let st = initial_state(&after);
            let is_h = after.spec_chip_type().spec_is_h_type();
            let set = request_effect(st, MpsseRequest::SetClock(clock_hz));
            &&& request_outcome(st, MpsseRequest::SetClock(clock_hz)) is Ok
            &&& bound_to(set, &after)
            &&& set.clock_hz == clock_from_register(
                clock_source_hz(is_h, clock_hz as int),
                clock_divisor_register(is_h, clock_hz as int),
            )
            &&& set.gpio_low_value == 0 && set.gpio_low_dir == 0 && set.gpio_high_value == 0
                && set.gpio_high_dir == 0
            &&& set.is_h_type == is_h
        }),
        forall|old_st: MpsseState| #[trigger]
            bound_to(old_st, &before) ==> !bound_to(old_st, &after),
{
}

/// Reading a GPIO byte sends that byte's read opcode (0x81 for the low byte,
/// 0x83 for the high byte) followed by a flush, reads back exactly one byte,
/// and changes nothing the context records; the two reads use different
/// opcodes.
pub proof fn lemma_gpio_reads(st: MpsseState)
    ensures
        request_outcome(st, MpsseRequest::GetGpioLow) == Ok::<(Seq<u8>, nat), Error>(
            (seq![0x81u8, 0x87u8], 1nat),
        ),
        request_outcome(st, MpsseRequest::GetGpioHigh) == Ok::<(Seq<u8>, nat), Error>(
            (seq![0x83u8, 0x87u8], 1nat),
        ),
        request_effect(st, MpsseRequest::GetGpioLow) == st,
        request_effect(st, MpsseRequest::GetGpioHigh) == st,
{
}

/// Driving a GPIO byte sends that byte's set opcode (0x80 low, 0x82 high),
/// then the requested value, then the requested direction, reads nothing,
/// and the context then records exactly that value and direction for that
/// byte, leaving the other byte's record alone.
pub proof fn lemma_gpio_writes(st: MpsseState, value: u8, direction: u8)
    ensures
        ({
            let req = MpsseRequest::SetGpioLow { value, direction };
            let after = request_effect(st, req);
            &&& request_outcome(st, req) matches Ok((c, n)) && n == 0 && c.len() == 3 && c[0]
                == 0x80u8 && c[1] == value && c[2] == direction && c[1] == after.gpio_low_value
                && c[2] == after.gpio_low_dir
            &&& after.gpio_high_value == st.gpio_high_value && after.gpio_high_dir
                == st.gpio_high_dir
        }),
        ({
            let req = MpsseRequest::SetGpioHigh { value, direction };
            let after = request_effect(st, req);
            &&& request_outcome(st, req) matches Ok((c, n)) && n == 0 && c.len() == 3 && c[0]
                == 0x82u8 && c[1] == value && c[2] == direction && c[1] == after.gpio_high_value
                && c[2] == after.gpio_high_dir
            &&& after.gpio_low_value == st.gpio_low_value && after.gpio_low_dir == st.gpio_low_dir
        }),
{
}

/// The opcode-only operations send exactly their opcode (loopback on 0x84,
/// off 0x85; 3-phase clocking on 0x8C, off 0x8D; synchronization the bogus
/// opcode 0xAB and a flush) and read nothing; releasing the pins sets both
/// GPIO bytes to inputs driven low and the context records that; 3-phase
/// clocking is refused on parts that are not H-type, with nothing recorded.
pub proof fn lemma_fixed_commands(st: MpsseState)
    ensures
        request_outcome(st, MpsseRequest::EnableLoopback) == Ok::<(Seq<u8>, nat), Error>(
            (seq![0x84u8], 0nat),
        ),
        request_outcome(st, MpsseRequest::DisableLoopback) == Ok::<(Seq<u8>, nat), Error>(
            (seq![0x85u8], 0nat),
        ),
        request_outcome(st, MpsseRequest::Synchronize) == Ok::<(Seq<u8>, nat), Error>(
            (seq![0xABu8, 0x87u8], 0nat),
        ),
        request_outcome(st, MpsseRequest::ReleasePins) == Ok::<(Seq<u8>, nat), Error>(
            (seq![0x80u8, 0u8, 0u8, 0x82u8, 0u8, 0u8], 0nat),
        ),
        request_effect(st, MpsseRequest::ReleasePins).gpio_low_value == 0
            && request_effect(st, MpsseRequest::ReleasePins).gpio_low_dir == 0
            && request_effect(st, MpsseRequest::ReleasePins).gpio_high_value == 0
            && request_effect(st, MpsseRequest::ReleasePins).gpio_high_dir == 0,
        st.is_h_type ==> request_outcome(st, MpsseRequest::Enable3Phase) == Ok::<
            (Seq<u8>, nat),
            Error,
        >((seq![0x8Cu8], 0nat)),
        st.is_h_type ==> request_outcome(st, MpsseRequest::Disable3Phase) == Ok::<
            (Seq<u8>, nat),
            Error,
        >((seq![0x8Du8], 0nat)),
        !st.is_h_type ==> request_outcome(st, MpsseRequest::Enable3Phase) is Err
            && request_outcome(st, MpsseRequest::Disable3Phase) is Err
            && request_effect(st, MpsseRequest::Enable3Phase) == st
            && request_effect(st, MpsseRequest::Disable3Phase) == st,
        request_effect(st, MpsseRequest::EnableLoopback) == st,
        request_effect(st, MpsseRequest::DisableLoopback) == st,
        request_effect(st, MpsseRequest::Synchronize) == st,
{
}

/// Setting the clock by frequency: the command is an optional source
/// selection (H-type parts only: 0x8A for the 60 MHz source, 0x8B for the
/// 12 MHz one; the 60 MHz source exactly above 6 MHz), then 0x86 and the
/// 16-bit divisor register, low byte first; the clock the context records is
/// the selected source divided by twice (register + 1), and is never below
/// the requested frequency unless the register saturated at 0xFFFF.
pub proof fn lemma_set_clock_bytes(st: MpsseState, clock_hz: u32)
    requires
        clock_in_range(st.is_h_type, clock_hz as int),
    ensures
        request_outcome(st, MpsseRequest::SetClock(clock_hz)) matches Ok((c, n)) && n == 0 && ({
            let k = c.len() - 3;
            let div = c[k + 1] + 256 * c[k + 2];
            let src: int = if k == 1 && c[0] == 0x8Au8 {
                60_000_000
            } else {
                12_000_000
            };
            &&& (if st.is_h_type {
                k == 1 && c[0] == (if clock_hz > 6_000_000 { 0x8Au8 } else { 0x8Bu8 })
            } else {
                k == 0
            })
            &&& c[k] == 0x86u8
            &&& request_effect(st, MpsseRequest::SetClock(clock_hz)).clock_hz == src / (2 * (div
                + 1))
            &&& div < 0xFFFF ==> src / (2 * (div + 1)) >= clock_hz
        }),
{
    let is_h = st.is_h_type;
    let hz = clock_hz as int;
    let src = clock_source_hz(is_h, hz);
    let q = src / (2 * hz);
    let div = clock_divisor_register(is_h, hz);
    assert(q >= 1 ==> q * (2 * hz) <= src) by (nonlinear_arith)
        requires
            hz > 0,
            q == src / (2 * hz),
    ;
    assert(q >= 1) by (nonlinear_arith)
        requires
            0 < hz <= src / 2,
            q == src / (2 * hz),
    ;
    assert(0 <= div <= 0xFFFF);
    assert((div % 256) + 256 * ((div / 256) % 256) == div);
    assert(div < 0xFFFF ==> src / (2 * (div + 1)) >= hz) by (nonlinear_arith)
        requires
            div < 0xFFFF ==> div == q - 1,
            q >= 1,
            q * (2 * hz) <= src,
            hz > 0,
    ;
    let actual = clock_from_register(src, div);
    assert(0 < actual <= src / 2) by (nonlinear_arith)
        requires
            0 <= div <= 0xFFFF,
            src == 12_000_000 || src == 60_000_000,
            actual == src / ((1 + div) * 2),
    ;
    assert((1 + div) * 2 == 2 * (div + 1));
}

/// Setting the clock by raw divisor `d` (even, at least 2): the command is
/// 0x8A on H-type parts (60 MHz source, nothing on older parts), then 0x86
/// and the register `d / 2 - 1`, low byte first; the context records the
/// fastest source divided by `d`. An odd or too small divisor is refused
/// and records nothing.
pub proof fn lemma_set_clock_divisor_bytes(st: MpsseState, d: u16)
    ensures
        divisor_is_valid(d as int) ==> (request_outcome(st, MpsseRequest::SetClockDivisor(d)) matches Ok((c, n))
            && n == 0 && ({
            let k = c.len() - 3;
            &&& (if st.is_h_type { k == 1 && c[0] == 0x8Au8 } else { k == 0 })
            &&& c[k] == 0x86u8
            &&& c[k + 1] + 256 * c[k + 2] == d / 2 - 1
            &&& request_effect(st, MpsseRequest::SetClockDivisor(d)).clock_hz == (if st.is_h_type {
                60_000_000int
            } else {
                12_000_000int
            }) / (d as int)
        })),
        !divisor_is_valid(d as int) ==> request_outcome(st, MpsseRequest::SetClockDivisor(d)) is Err
            && request_effect(st, MpsseRequest::SetClockDivisor(d)) == st,
{
    if divisor_is_valid(d as int) {
        let r = d / 2 - 1;
        assert(0 <= r <= 0xFFFF);
        assert((r % 256) + 256 * ((r / 256) % 256) == r);
        assert((if st.is_h_type { 60_000_000int } else { 12_000_000int }) / (d as int) <= 30_000_000)
            by (nonlinear_arith)
            requires
                d >= 2,
        ;
    }
}

/// A context initialized on one device never drives another device.
pub proof fn lemma_context_bound_to_its_device(dev: FtdiDevice, other: FtdiDevice)
    requires
        other.spec_device_id() != dev.spec_device_id(),
    ensures
        bound_to(initial_state(&dev), &dev),
        !bound_to(initial_state(&dev), &other),
{
}

/// The clock that `SetClock(clock_hz)` records is the clock that its divisor
/// command produces, and lies between 1 Hz and the part's maximum.
pub proof fn lemma_clock_command_consistent(is_h_type: bool, clock_hz: u32)
    requires
        clock_in_range(is_h_type, clock_hz as int),
    ensures
        ({
            let div = clock_divisor_register(is_h_type, clock_hz as int);
            let cmd = clock_prescaler_command(is_h_type, clock_hz as int) + tck_divisor_command(
                div,
            );
            let actual = clock_from_register(clock_source_hz(is_h_type, clock_hz as int), div);
            &&& 0 <= div <= 0xFFFF
            &&& cmd[cmd.len() - 3] == mpsse::TCK_DIVISOR
            &&& cmd[cmd.len() - 2] + 256 * cmd[cmd.len() - 1] == div
            &&& 0 < actual <= max_clock_hz(is_h_type)
        }),
{
    let src = clock_source_hz(is_h_type, clock_hz as int);
    let q = src / (2 * clock_hz);
    let div = clock_divisor_register(is_h_type, clock_hz as int);
    assert(q >= 0) by (nonlinear_arith)
        requires
            src > 0,
            clock_hz > 0,
            q == src / (2 * clock_hz),
    ;
    assert(0 <= div <= 0xFFFF);
    assert((div % 256) + 256 * ((div / 256) % 256) == div);
    let actual = clock_from_register(src, div);
    assert(0 < actual <= src / 2) by (nonlinear_arith)
        requires
            0 <= div <= 0xFFFF,
            src == 12_000_000 || src == 60_000_000,
            actual == src / ((1 + div) * 2),
    ;
}

/// When the source clock is an exact multiple of twice the requested clock,
/// and the divisor fits in 16 bits, `SetClock` achieves the requested clock
/// exactly.
pub proof fn lemma_clock_exact_when_divisible(is_h_type: bool, clock_hz: u32)
    requires
        clock_in_range(is_h_type, clock_hz as int),
        clock_source_hz(is_h_type, clock_hz as int) % (2 * clock_hz as int) == 0,
        clock_source_hz(is_h_type, clock_hz as int) / (2 * clock_hz as int) <= 0x10000,
    ensures
        clock_from_register(
            clock_source_hz(is_h_type, clock_hz as int),
            clock_divisor_register(is_h_type, clock_hz as int),
        ) == clock_hz,
{
    let src = clock_source_hz(is_h_type, clock_hz as int);
    let h = clock_hz as int;
    let q = src / (2 * h);
    assert(src == q * (2 * h) && q >= 1) by (nonlinear_arith)
        requires
            h > 0,
            src > 0,
            2 * h <= src,
            src % (2 * h) == 0,
            q == src / (2 * h),
    ;
    assert(clock_divisor_register(is_h_type, h) == q - 1);
    assert(src / ((1 + (q - 1)) * 2) == h) by (nonlinear_arith)
        requires
            src == q * (2 * h),
            q >= 1,
            h > 0,
    ;
}

} // verus!

verus! {

/// The raw divisor and the frequency-based clock settings agree: a raw
/// divisor `d` programs divisor register `d / 2 - 1`, and the clock that
/// register produces from the fastest source is `source / d`.
pub proof fn lemma_divisor_command_consistent(is_h_type: bool, divisor: u16)
    requires
        divisor_is_valid(divisor as int),
    ensures
        clock_from_register(fast_source_hz(is_h_type), divisor / 2 - 1) == fast_source_hz(
            is_h_type,
        ) / (divisor as int),
{
    assert((1 + (divisor / 2 - 1)) * 2 == divisor as int);
}

/// A session operation that [`MpsseSession::prepare`] refuses has no effect
/// when [`MpsseSession::complete`] records it.
pub proof fn lemma_refused_request_has_no_effect(st: MpsseState, req: MpsseRequest)
    requires
        request_outcome(st, req) is Err,
    ensures
        request_effect(st, req) == st,
{
}

/// The carry of the synchronization scan across a chunk: whether the last
/// byte seen is the "bad command" marker.
pub open spec fn sync_carry(previous_was_bad_command: bool, bytes: Seq<u8>) -> bool {
    if bytes.len() == 0 {
        previous_was_bad_command
    } else {
        bytes.last() == MpsseContext::BAD_COMMAND
    }
}

/// Scanning MPSSE output chunk by chunk, carrying the last-byte flag from one
/// chunk to the next, finds the synchronization echo exactly when scanning
/// the whole output at once does.
pub proof fn lemma_sync_scan_split(previous_was_bad_command: bool, a: Seq<u8>, b: Seq<u8>)
    ensures
        (exists|i: int| sync_echo_at(previous_was_bad_command, a + b, i)) <==> ((exists|i: int|
            sync_echo_at(previous_was_bad_command, a, i)) || (exists|i: int|
            sync_echo_at(sync_carry(previous_was_bad_command, a), b, i))),
{
    let p = previous_was_bad_command;
    let ab = a + b;
    if exists|i: int| sync_echo_at(p, ab, i) {
        let i = choose|i: int| sync_echo_at(p, ab, i);
        if i < a.len() {
            assert(sync_echo_at(p, a, i));
        } else {
            assert(sync_echo_at(sync_carry(p, a), b, i - a.len()));
        }
    }
    if exists|i: int| sync_echo_at(p, a, i) {
        let i = choose|i: int| sync_echo_at(p, a, i);
        assert(sync_echo_at(p, ab, i));
    }
    if exists|i: int| sync_echo_at(sync_carry(p, a), b, i) {
        let i = choose|i: int| sync_echo_at(sync_carry(p, a), b, i);
        assert(sync_echo_at(p, ab, i + a.len()));
    }
}

} // verus!

