//! A from-scratch Modbus protocol engine: frame encoding and decoding for the
//! RTU, TCP and TCP-PI backends, a transaction state machine for the master
//! side, an in-memory data mapping for the slave side, and a request
//! dispatcher, all with verified contracts.
//!
//! The engine itself performs no I/O: a caller opens the transport, hands
//! received bytes to the transaction engine or the slave dispatcher, and
//! writes out the frames they produce.

use vstd::prelude::*;

pub mod bits;
pub mod context;
pub mod crc;
pub mod dispatch;
pub mod frame;
pub mod mapping;
pub mod master;
pub mod pdu;
pub mod transaction;

verus! {

/// Every failure a master or slave operation can surface.
#[derive(Debug, PartialEq, Eq, Clone, Copy, Structural)]
pub enum ModbusError {
    /// The transport could not be opened or has been closed.
    ConnectionError,
    /// An RTU frame's CRC16 disagrees with its contents.
    ChecksumMismatch,
    /// A frame is malformed: bad TCP header, wrong length, unknown
    /// function code, or a payload that does not match its function code.
    InvalidHeader,
    /// A read or write quantity exceeds the per-function ceiling.
    InvalidQuantity,
    /// A start address plus quantity overflows the 16-bit address space.
    InvalidAddress,
    /// A mapping access lies outside the allocated storage.
    OutOfRange,
    /// The remote device answered with a Modbus exception code.
    ModbusException(u8),
    /// No matching response arrived within the retry budget.
    NoResponse,
    /// A context parameter is invalid: bad parity, slave id out of range.
    InvalidConfiguration,
}

/// Modbus exception code 1: the function code is not supported.
pub const EXCEPTION_ILLEGAL_FUNCTION: u8 = 1;
/// Modbus exception code 2: the requested data address is out of range.
pub const EXCEPTION_ILLEGAL_DATA_ADDRESS: u8 = 2;
/// Modbus exception code 3: a request value or payload is malformed.
pub const EXCEPTION_ILLEGAL_DATA_VALUE: u8 = 3;

} // verus!
