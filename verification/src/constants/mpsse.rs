//! MPSSE opcodes and shifting flags (FTDI AN_108).

use vstd::prelude::*;

verus! {

/// Shift data out on the falling clock edge.
pub const WRITE_NEG: u8 = 0x01;
/// Shift bits rather than bytes.
pub const BITMODE: u8 = 0x02;
/// Sample data in on the falling clock edge.
pub const READ_NEG: u8 = 0x04;
/// Least significant bit first.
pub const LSB: u8 = 0x08;
/// Shift data out on TDI/DO.
pub const DO_WRITE: u8 = 0x10;
/// Sample data in on TDO/DI.
pub const DO_READ: u8 = 0x20;
/// Shift data out on TMS.
pub const WRITE_TMS: u8 = 0x40;

/// Set the value and direction of the low GPIO byte (ADBUS).
pub const SET_BITS_LOW: u8 = 0x80;
/// Read the low GPIO byte.
pub const GET_BITS_LOW: u8 = 0x81;
/// Set the value and direction of the high GPIO byte (ACBUS).
pub const SET_BITS_HIGH: u8 = 0x82;
/// Read the high GPIO byte.
pub const GET_BITS_HIGH: u8 = 0x83;
/// Connect TDI/DO to TDO/DI internally.
pub const LOOPBACK_START: u8 = 0x84;
/// Disconnect the internal loopback.
pub const LOOPBACK_END: u8 = 0x85;
/// Set the clock divisor (followed by its low and high byte).
pub const TCK_DIVISOR: u8 = 0x86;
/// Flush the chip's read buffer to the host now.
pub const SEND_IMMEDIATE: u8 = 0x87;
/// Disable the divide-by-5 prescaler (60 MHz source, H-type only).
pub const DIS_DIV_5: u8 = 0x8A;
/// Enable the divide-by-5 prescaler (12 MHz source).
pub const EN_DIV_5: u8 = 0x8B;
/// Enable 3-phase data clocking (H-type only).
pub const EN_3_PHASE: u8 = 0x8C;
/// Disable 3-phase data clocking (H-type only).
pub const DIS_3_PHASE: u8 = 0x8D;
/// Disable adaptive clocking (H-type only).
pub const DIS_ADAPTIVE: u8 = 0x97;

/// The clock divisor for `rate` Hz on the 12 MHz MPSSE source of the
/// original FT2232C: 0 above 6 MHz, saturating at 0xFFFF for very low rates
/// and for a rate of 0.
pub open spec fn spec_div_value(rate: int) -> int {
    if rate > 6_000_000 {
        0
    } else if rate == 0 {
        0xFFFF
    } else if 6_000_000int / rate - 1 > 0xFFFF {
        0xFFFF
    } else {
        6_000_000int / rate - 1
    }
}

/// Clock divisor for `rate` Hz on a 12 MHz MPSSE source.
pub fn div_value(rate: u32) -> (div: u16)
    ensures
        div == spec_div_value(rate as int),
{
    if rate > 6_000_000 {
        0
    } else if rate == 0 {
        0xFFFF
    } else {
        assert(6_000_000int / (rate as int) >= 1) by (nonlinear_arith)
            requires
                0 < rate <= 6_000_000,
        ;
        let d = 6_000_000 / rate - 1;
        if d > 0xFFFF {
            0xFFFF
        } else {
            d as u16
        }
    }
}

} // verus!
