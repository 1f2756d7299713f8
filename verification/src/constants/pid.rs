//! USB product IDs of the supported FTDI chips.

use vstd::prelude::*;

verus! {

/// FT232AM/BM/R and FT245 family.
pub const FT232: u16 = 0x6001;
/// FT2232C/D/H dual-port parts.
pub const FT2232: u16 = 0x6010;
/// FT4232H quad-port part.
pub const FT4232: u16 = 0x6011;
/// FT232H single hi-speed part.
pub const FT232H: u16 = 0x6014;
/// FT230X/FT231X family.
pub const FT230X: u16 = 0x6015;

} // verus!
