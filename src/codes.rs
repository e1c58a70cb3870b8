//! Hardware-fixed value tables of the UART: well-known base addresses, baud
//! divisors, parity encodings, interrupt sources and register offsets.
use vstd::prelude::*;

verus! {

/// Legacy PC base addresses of the four serial ports.
#[derive(Clone, Copy, Debug, PartialEq, Eq, Structural)]
pub enum KnownPorts {
    COM4,
    COM2,
    COM3,
    COM1,
}

impl KnownPorts {
    pub open spec fn spec_base(self) -> u16 {
        match self {
            KnownPorts::COM4 => 0x2e8,
            KnownPorts::COM2 => 0x2f8,
            KnownPorts::COM3 => 0x3e8,
            KnownPorts::COM1 => 0x3f8,
        }
    }

    /// The first of the port's eight I/O addresses.
    pub fn base(&self) -> (r: u16)
        ensures
            r == self.spec_base(),
    {
        match self {
            KnownPorts::COM4 => 0x2e8,
            KnownPorts::COM2 => 0x2f8,
            KnownPorts::COM3 => 0x3e8,
            KnownPorts::COM1 => 0x3f8,
        }
    }
}

/// Supported baud rates, as divisors of the 115200 Hz base clock.
#[derive(Clone, Copy, Debug, PartialEq, Eq, Structural)]
pub enum DivisorSpeed {
    BAUD115200,
    BAUD57600,
    BAUD38400,
}

impl DivisorSpeed {
    pub open spec fn spec_code(self) -> u16 {
        match self {
            DivisorSpeed::BAUD115200 => 1,
            DivisorSpeed::BAUD57600 => 2,
            DivisorSpeed::BAUD38400 => 3,
        }
    }

    /// The 16-bit divisor latched into the UART for this speed.
    pub fn code(&self) -> (r: u16)
        ensures
            r == self.spec_code(),
    {
        match self {
            DivisorSpeed::BAUD115200 => 1,
            DivisorSpeed::BAUD57600 => 2,
            DivisorSpeed::BAUD38400 => 3,
        }
    }
}

/// Parity settings, as line-control register bits.
#[derive(Clone, Copy, Debug, PartialEq, Eq, Structural)]
pub enum Parity {
    NoParity,
    Odd,
    Even,
    Mark,
    Space,
}

impl Parity {
    pub open spec fn spec_bits(self) -> u8 {
        match self {
            Parity::NoParity => 0x00,
            Parity::Odd => 0x04,
            Parity::Even => 0x12,
            Parity::Mark => 0x14,
            Parity::Space => 0x1C,
        }
    }

    /// The bits this parity setting contributes to the line-control byte.
    pub fn bits(&self) -> (r: u8)
        ensures
            r == self.spec_bits(),
    {
        match self {
            Parity::NoParity => 0x00,
            Parity::Odd => 0x04,
            Parity::Even => 0x12,
            Parity::Mark => 0x14,
            Parity::Space => 0x1C,
        }
    }
}

/// Interrupt sources, as interrupt-cause bit codes.
#[derive(Clone, Copy, Debug, PartialEq, Eq, Structural)]
pub enum Interrupt {
    DataAvailable,
    TransmitterEmpty,
    BreakError,
    StatusChange,
}

impl Interrupt {
    pub open spec fn spec_bits(self) -> u8 {
        match self {
            Interrupt::DataAvailable => 0x0,
            Interrupt::TransmitterEmpty => 0x2,
            Interrupt::BreakError => 0x4,
            Interrupt::StatusChange => 0x8,
        }
    }

    /// The bit code of this interrupt source.
    pub fn bits(&self) -> (r: u8)
        ensures
            r == self.spec_bits(),
    {
        match self {
            Interrupt::DataAvailable => 0x0,
            Interrupt::TransmitterEmpty => 0x2,
            Interrupt::BreakError => 0x4,
            Interrupt::StatusChange => 0x8,
        }
    }
}

/// The eight UART registers, in the order of their offsets from the base.
#[derive(Clone, Copy, Debug, PartialEq, Eq, Structural)]
pub enum Register {
    /// Data; divisor low byte while the divisor latch is open.
    DataDlabLsb,
    /// Interrupt enable; divisor high byte while the divisor latch is open.
    InterruptDlabMsb,
    /// Interrupt identification on read, FIFO control on write.
    InterruptIdentFifo,
    LineControl,
    ModemControl,
    LineStatus,
    ModemStatus,
    Scratch,
}

impl Register {
    pub open spec fn spec_offset(self) -> u16 {
        match self {
            Register::DataDlabLsb => 0,
            Register::InterruptDlabMsb => 1,
            Register::InterruptIdentFifo => 2,
            Register::LineControl => 3,
            Register::ModemControl => 4,
            Register::LineStatus => 5,
            Register::ModemStatus => 6,
            Register::Scratch => 7,
        }
    }

    /// Distance of this register from the port's base address.
    pub fn offset(&self) -> (r: u16)
        ensures
            r == self.spec_offset(),
            r <= 7,
    {
        match self {
            Register::DataDlabLsb => 0,
            Register::InterruptDlabMsb => 1,
            Register::InterruptIdentFifo => 2,
            Register::LineControl => 3,
            Register::ModemControl => 4,
            Register::LineStatus => 5,
            Register::ModemStatus => 6,
            Register::Scratch => 7,
        }
    }
}

} // verus!
