//! Vendor control requests of the FTDI serial engine (libftdi's `SIO_*`
//! requests) that the MPSSE and streaming paths issue.

use vstd::prelude::*;

use crate::types::{BitMode, Interface};

verus! {

/// `bRequest` of the reset/purge request.
pub const SIO_RESET_REQUEST: u8 = 0x00;
/// `bRequest` of the bit-mode request.
pub const SIO_SET_BITMODE_REQUEST: u8 = 0x0B;
/// `wValue` that resets the serial engine.
pub const SIO_RESET_SIO: u16 = 0;
/// `wValue` that purges the chip's receive buffer (libftdi `SIO_TCIFLUSH`).
pub const SIO_TCIFLUSH: u16 = 2;
/// `wValue` that purges the chip's transmit buffer (libftdi `SIO_TCOFLUSH`).
pub const SIO_TCOFLUSH: u16 = 1;

/// A vendor OUT control request addressed to one chip port.
#[derive(Debug, Clone, Copy, PartialEq, Eq, Structural)]
pub struct ControlRequest {
    /// `bRequest`.
    pub request: u8,
    /// `wValue`.
    pub value: u16,
    /// `wIndex` (the port's request index).
    pub index: u16,
}

/// Request that switches the port's I/O engine to `mode`, with `bitmask`
/// selecting the output pins of bitbang modes.
pub fn set_bitmode_request(iface: Interface, bitmask: u8, mode: BitMode) -> (r: ControlRequest)
    ensures
        r.request == SIO_SET_BITMODE_REQUEST,
        r.value == bitmask + 256 * mode.spec_bits(),
        r.index == iface.spec_port() + 1,
{
    let bits = mode.bits();
    ControlRequest {
        request: SIO_SET_BITMODE_REQUEST,
        value: bitmask as u16 + 256 * bits as u16,
        index: iface.config().index,
    }
}

/// Request that resets the port's serial engine.
pub fn reset_request(iface: Interface) -> (r: ControlRequest)
    ensures
        r == (ControlRequest {
            request: SIO_RESET_REQUEST,
            value: SIO_RESET_SIO,
            index: (iface.spec_port() + 1) as u16,
        }),
{
    ControlRequest { request: SIO_RESET_REQUEST, value: SIO_RESET_SIO, index: iface.config().index }
}

/// Request that purges the chip's receive buffer.
pub fn flush_rx_request(iface: Interface) -> (r: ControlRequest)
    ensures
        r == (ControlRequest {
            request: SIO_RESET_REQUEST,
            value: SIO_TCIFLUSH,
            index: (iface.spec_port() + 1) as u16,
        }),
{
    ControlRequest { request: SIO_RESET_REQUEST, value: SIO_TCIFLUSH, index: iface.config().index }
}

/// Request that purges the chip's transmit buffer.
pub fn flush_tx_request(iface: Interface) -> (r: ControlRequest)
    ensures
        r == (ControlRequest {
            request: SIO_RESET_REQUEST,
            value: SIO_TCOFLUSH,
            index: (iface.spec_port() + 1) as u16,
        }),
{
    ControlRequest { request: SIO_RESET_REQUEST, value: SIO_TCOFLUSH, index: iface.config().index }
}

/// The bit-mode request carries the pin mask in the low byte of `wValue`
/// and the mode in the high byte, where the modes are the chip's mode bits:
/// reset 0x00, bitbang 0x01, MPSSE 0x02, synchronous bitbang 0x04, MCU host
/// 0x08, fast opto 0x10, CBUS bitbang 0x20, synchronous FIFO 0x40, FT1284
/// 0x80 (each mode but reset a single distinct bit).
pub proof fn lemma_bitmode_request(bitmask: u8, mode: BitMode)
    ensures
        (bitmask + 256 * mode.spec_bits()) % 256 == bitmask,
        (bitmask + 256 * mode.spec_bits()) / 256 == mode.spec_bits(),
        mode.spec_bits() == (match mode {
            BitMode::Reset => 0x00u8,
            BitMode::BitBang => 0x01u8,
            BitMode::Mpsse => 0x02u8,
            BitMode::SyncBb => 0x04u8,
            BitMode::Mcu => 0x08u8,
            BitMode::Opto => 0x10u8,
            BitMode::Cbus => 0x20u8,
            BitMode::SyncFf => 0x40u8,
            BitMode::Ft1284 => 0x80u8,
        }),
{
}

} // verus!

