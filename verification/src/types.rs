//! Chip families, bit modes and interface selection.

use vstd::prelude::*;

verus! {

/// FTDI chip family.
#[derive(Debug, Clone, Copy, PartialEq, Eq, Structural)]
pub enum ChipType {
    /// FT8U232AM.
    Am,
    /// FT232BM / FT245BM.
    Bm,
    /// FT2232C/D (dual port, first chip with an MPSSE).
    Ft2232C,
    /// FT232R / FT245R.
    Ft232R,
    /// FT2232H (dual hi-speed).
    Ft2232H,
    /// FT4232H (quad hi-speed).
    Ft4232H,
    /// FT232H (single hi-speed).
    Ft232H,
    /// FT230X / FT231X family.
    Ft230X,
}

impl ChipType {
    /// The hi-speed ("H") parts: 60 MHz MPSSE clock source, 3-phase clocking,
    /// adaptive clocking.
    pub open spec fn spec_is_h_type(self) -> bool {
        self == ChipType::Ft2232H || self == ChipType::Ft4232H || self == ChipType::Ft232H
    }

    /// The parts that carry an MPSSE.
    pub open spec fn spec_has_mpsse(self) -> bool {
        self == ChipType::Ft2232C || self.spec_is_h_type()
    }

    /// The parts that support the synchronous 245 FIFO stream mode.
    pub open spec fn spec_has_sync_fifo(self) -> bool {
        self == ChipType::Ft2232H || self == ChipType::Ft232H
    }

    /// The chip family that a device descriptor announces, as libftdi
    /// derives it from `bcdDevice`: 0x400 (or 0x200 without a serial number
    /// string) is a BM part, 0x200 an AM part, 0x500 an FT2232C, 0x600 an
    /// FT232R, 0x700 an FT2232H, 0x800 an FT4232H, 0x900 an FT232H, 0x1000 an
    /// FT230X; unknown versions are taken for BM parts.
    pub open spec fn spec_from_descriptor(bcd_device: u16, has_serial_number: bool) -> ChipType {
        if bcd_device == 0x400 || (bcd_device == 0x200 && !has_serial_number) {
            ChipType::Bm
        } else if bcd_device == 0x200 {
            ChipType::Am
        } else if bcd_device == 0x500 {
            ChipType::Ft2232C
        } else if bcd_device == 0x600 {
            ChipType::Ft232R
        } else if bcd_device == 0x700 {
            ChipType::Ft2232H
        } else if bcd_device == 0x800 {
            ChipType::Ft4232H
        } else if bcd_device == 0x900 {
            ChipType::Ft232H
        } else if bcd_device == 0x1000 {
            ChipType::Ft230X
        } else {
            ChipType::Bm
        }
    }

    /// The chip family that a device descriptor announces.
    pub fn from_descriptor(bcd_device: u16, has_serial_number: bool) -> (c: ChipType)
        ensures
            c == Self::spec_from_descriptor(bcd_device, has_serial_number),
    {
        if bcd_device == 0x400 || (bcd_device == 0x200 && !has_serial_number) {
            ChipType::Bm
        } else if bcd_device == 0x200 {
            ChipType::Am
        } else if bcd_device == 0x500 {
            ChipType::Ft2232C
        } else if bcd_device == 0x600 {
            ChipType::Ft232R
        } else if bcd_device == 0x700 {
            ChipType::Ft2232H
        } else if bcd_device == 0x800 {
            ChipType::Ft4232H
        } else if bcd_device == 0x900 {
            ChipType::Ft232H
        } else if bcd_device == 0x1000 {
            ChipType::Ft230X
        } else {
            ChipType::Bm
        }
    }

    /// Whether this is a hi-speed ("H") part.
    pub fn is_h_type(self) -> (h: bool)
        ensures
            h == self.spec_is_h_type(),
    {
        match self {
            ChipType::Ft2232H | ChipType::Ft4232H | ChipType::Ft232H => true,
            _ => false,
        }
    }
}

/// Bit mode of the chip's I/O engine (the value of `SIO_SET_BITMODE`).
#[derive(Debug, Clone, Copy, PartialEq, Eq, Structural)]
pub enum BitMode {
    /// Reset to the serial UART/FIFO mode.
    Reset,
    /// Asynchronous bitbang.
    BitBang,
    /// Multi-Protocol Synchronous Serial Engine.
    Mpsse,
    /// Synchronous bitbang.
    SyncBb,
    /// MCU host bus emulation.
    Mcu,
    /// Fast opto-isolated serial.
    Opto,
    /// CBUS bitbang.
    Cbus,
    /// Synchronous 245 FIFO.
    SyncFf,
    /// FT1284.
    Ft1284,
}

impl BitMode {
    /// The mode byte sent to the chip.
    pub open spec fn spec_bits(self) -> u8 {
        match self {
            BitMode::Reset => 0x00,
            BitMode::BitBang => 0x01,
            BitMode::Mpsse => 0x02,
            BitMode::SyncBb => 0x04,
            BitMode::Mcu => 0x08,
            BitMode::Opto => 0x10,
            BitMode::Cbus => 0x20,
            BitMode::SyncFf => 0x40,
            BitMode::Ft1284 => 0x80,
        }
    }

    /// The mode byte sent to the chip.
    pub fn bits(self) -> (b: u8)
        ensures
            b == self.spec_bits(),
    {
        match self {
            BitMode::Reset => 0x00,
            BitMode::BitBang => 0x01,
            BitMode::Mpsse => 0x02,
            BitMode::SyncBb => 0x04,
            BitMode::Mcu => 0x08,
            BitMode::Opto => 0x10,
            BitMode::Cbus => 0x20,
            BitMode::SyncFf => 0x40,
            BitMode::Ft1284 => 0x80,
        }
    }
}

/// Index of the first device whose vendor and product IDs are
/// `(vendor, product)`, in enumeration order.
pub fn find_first_match(ids: &[(u16, u16)], vendor: u16, product: u16) -> (r: Option<usize>)
    ensures
        r is None ==> forall|i: int| 0 <= i < ids@.len() ==> ids@[i] != (vendor, product),
        r matches Some(i) ==> i < ids@.len() && ids@[i as int] == (vendor, product) && forall|
            j: int,
        |
            0 <= j < i ==> ids@[j] != (vendor, product),
{
    let mut i: usize = 0;
    while i < ids.len()
        invariant
            i <= ids@.len(),
            forall|j: int| 0 <= j < i ==> ids@[j] != (vendor, product),
        decreases ids@.len() - i,
    {
        let (v, p) = ids[i];
        if v == vendor && p == product {
            return Some(i);
        }
        i += 1;
    }
    None
}

/// Which port of a multi-port chip to open.
#[derive(Debug, Clone, Copy, PartialEq, Eq, Structural)]
pub enum Interface {
    /// The first port (the same as `A`).
    Any,
    /// Port A.
    A,
    /// Port B.
    B,
    /// Port C.
    C,
    /// Port D.
    D,
}

/// USB addressing of one chip port.
#[derive(Debug, Clone, Copy, PartialEq, Eq, Structural)]
pub struct InterfaceConfig {
    /// USB interface number to claim.
    pub interface_num: u8,
    /// `wIndex` of the vendor control requests addressed to this port.
    pub index: u16,
    /// Bulk OUT endpoint address (host to chip).
    pub out_ep: u8,
    /// Bulk IN endpoint address (chip to host).
    pub in_ep: u8,
}

impl Interface {
    /// Port number counted from 0 (`Any` is port A).
    pub open spec fn spec_port(self) -> int {
        match self {
            Interface::Any => 0,
            Interface::A => 0,
            Interface::B => 1,
            Interface::C => 2,
            Interface::D => 3,
        }
    }

    /// USB addressing of this port: interface `n`, request index `n + 1`,
    /// bulk OUT endpoint `2n + 2` and bulk IN endpoint `0x80 | (2n + 1)`.
    pub fn config(self) -> (c: InterfaceConfig)
        ensures
            c.interface_num == self.spec_port(),
            c.index == self.spec_port() + 1,
            c.out_ep == 2 * self.spec_port() + 2,
            c.in_ep == 0x80 + 2 * self.spec_port() + 1,
    {
        let port: u8 = match self {
            Interface::Any | Interface::A => 0,
            Interface::B => 1,
            Interface::C => 2,
            Interface::D => 3,
        };
        InterfaceConfig {
            interface_num: port,
            index: port as u16 + 1,
            out_ep: 2 * port + 2,
            in_ep: 0x80 + 2 * port + 1,
        }
    }
}

} // verus!
