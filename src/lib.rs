//! Driver logic for a 16450/16550-class UART reached through port-mapped I/O.
//!
//! The library never touches hardware itself. Each operation is a pure
//! decision over register values: it is handed whatever the caller read from
//! the device and returns the register writes to perform, in order. Whoever
//! owns the I/O instructions executes them.
use vstd::prelude::*;

pub mod codes;
pub mod port;

pub use codes::{DivisorSpeed, Interrupt, KnownPorts, Parity, Register};
pub use port::{Access, Port, RegisterWrite, TextWriter};

