//! Error type of the library.

use vstd::prelude::*;

use crate::types::ChipType;

verus! {

/// Why a USB transfer failed (mirrors the transfer status reported by the
/// USB backend).
#[derive(Debug, Clone, Copy, PartialEq, Eq, Structural)]
pub enum TransferError {
    /// The transfer was cancelled or timed out.
    Cancelled,
    /// The endpoint is stalled.
    Stall,
    /// The device was disconnected.
    Disconnected,
    /// Hardware fault or protocol violation.
    Fault,
    /// Invalid or unsupported request.
    InvalidArgument,
    /// Operating-system specific failure code.
    Unknown(u32),
}

/// Why a USB device operation (enumeration, open, claim, control request)
/// failed.
#[derive(Debug, Clone, Copy, PartialEq, Eq, Structural)]
pub enum UsbErrorKind {
    /// The device is gone.
    Disconnected,
    /// Another driver or process holds the device.
    Busy,
    /// Insufficient permissions.
    PermissionDenied,
    /// Configuration, interface or endpoint not found.
    NotFound,
    /// Not supported by the platform.
    Unsupported,
    /// Any other failure.
    Other,
}

/// Errors of the FTDI library.
#[derive(Debug)]
pub enum Error {
    /// No matching device was found.
    DeviceNotFound,
    /// The device could not be reached.
    DeviceUnavailable,
    /// The device was disconnected.
    Disconnected,
    /// The operation is not available on this chip.
    UnsupportedChip(ChipType),
    /// An argument is out of range.
    InvalidArgument(&'static str),
    /// Nothing arrived within the configured timeout.
    Timeout(core::time::Duration),
    /// The MPSSE answered "bad command" (0xFA) for the given opcode.
    MpsseBadCommand(u8),
    /// The MPSSE context or bus object belongs to another device, or the
    /// device was recovered or re-initialized since it was created.
    InvalidMpsseContext,
    /// A stateful operation was interrupted; the device must be recovered.
    RecoveryRequired,
    /// An I2C byte was not acknowledged.
    I2cNack(&'static str),
    /// A write transferred no bytes.
    WriteZero,
    /// A write transferred fewer bytes than requested.
    ShortWrite,
    /// A USB transfer failed.
    Transfer(TransferError),
    /// A USB device operation failed.
    Usb(UsbErrorKind),
}

/// Result type of the library.
pub type Result<T> = core::result::Result<T, Error>;

} // verus!
