//! USB identifiers and MPSSE opcodes.

pub mod mpsse;
pub mod pid;

use vstd::prelude::*;

verus! {

/// FTDI's USB vendor ID.
pub const FTDI_VID: u16 = 0x0403;

} // verus!
