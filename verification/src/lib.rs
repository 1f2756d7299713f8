//! Pure Rust library for communicating with FTDI USB devices.
//!
//! This crate holds the protocol logic of the FTDI USB-to-serial converter
//! family: MPSSE command encoding (clock, GPIO, SPI framing), the MPSSE
//! context and session bookkeeping, synchronous-FIFO stream framing, and the
//! validity rules that tie MPSSE state to the device it was initialized on.
//! Every function here is verified with Verus against its contract.

pub mod constants;
pub mod types;
pub mod error;
pub mod context;
pub mod mpsse;
pub mod sio;
pub mod stream;
pub mod blocking;
pub mod hal;

pub use constants::FTDI_VID;
pub use context::{AsyncFtdiDevice, FtdiDevice};
pub use error::{Error, Result};
pub use types::{BitMode, ChipType, Interface};
