//! The two-wire bus that the charger sits on.
//!
//! The driver does not move bytes itself. It asks an [`I2cBus`] to, and keeps
//! a ghost record of every transfer it asked for, so that its contracts can
//! say what went over the wire.

use vstd::prelude::*;

verus! {

/// The charger's 7-bit address on the bus.
pub const DEVICE_ADDR: u8 = 0x6B;

/// A blocking master on a two-wire bus with 7-bit addresses.
///
/// Nothing is assumed of an implementation: a transfer may fail at any time,
/// and what a read returns is up to the device.
pub trait I2cBus {
    /// What the bus reports when a transfer fails.
    type Error;

    /// Writes `bytes` to the device at `address`.
    fn write(&mut self, address: u8, bytes: &[u8]) -> (done: Result<(), Self::Error>);

    /// Writes `bytes` to the device at `address`, then reads from it until
    /// `buffer` is full, in one transaction.
    fn write_read(&mut self, address: u8, bytes: &[u8], buffer: &mut [u8]) -> (done: Result<
        (),
        Self::Error,
    >);
}

/// One transfer that the driver asked the bus for, with what the bus
/// answered. `E` is the bus's error.
pub enum Transfer<E> {
    /// `bytes` were handed to [`I2cBus::write`] for the device at `address`.
    Write { address: u8, bytes: Seq<u8>, done: Result<(), E> },
    /// `bytes` were handed to [`I2cBus::write_read`] for the device at
    /// `address`; on success `response` holds the bytes that came back.
    WriteRead { address: u8, bytes: Seq<u8>, response: Result<Seq<u8>, E> },
}

impl<E> Transfer<E> {
    /// The device that the transfer went to.
    pub open spec fn address(self) -> u8 {
        match self {
            Transfer::Write { address, .. } => address,
            Transfer::WriteRead { address, .. } => address,
        }
    }

    /// The register that the transfer names: the first byte that went out.
    pub open spec fn register(self) -> u8 {
        match self {
            Transfer::Write { bytes, .. } => bytes[0],
            Transfer::WriteRead { bytes, .. } => bytes[0],
        }
    }
}

/// Reading a register: the register's address goes to the charger and one
/// byte comes back. `outcome` is that byte, or the error of the bus.
pub open spec fn register_read<E>(register: u8, outcome: Result<u8, E>) -> Transfer<E> {
    Transfer::WriteRead {
        address: DEVICE_ADDR,
        bytes: seq![register],
        response: match outcome {
            Ok(byte) => Ok(seq![byte]),
            Err(error) => Err(error),
        },
    }
}

/// Writing a register: the register's address and the new value go to the
/// charger in one write.
pub open spec fn register_write<E>(register: u8, value: u8, outcome: Result<(), E>) -> Transfer<E> {
    Transfer::Write { address: DEVICE_ADDR, bytes: seq![register, value], done: outcome }
}

/// Between `before` and `after` the register was read once, and `byte` came
/// back.
pub open spec fn fetched<E>(
    before: Seq<Transfer<E>>,
    after: Seq<Transfer<E>>,
    register: u8,
    byte: u8,
) -> bool {
    after == before.push(register_read(register, Ok(byte)))
}

/// Between `before` and `after` one read of the register was tried, and the
/// bus failed with `error`.
pub open spec fn fetch_failed<E>(
    before: Seq<Transfer<E>>,
    after: Seq<Transfer<E>>,
    register: u8,
    error: E,
) -> bool {
    after == before.push(register_read(register, Err(error)))
}

/// Between `before` and `after` the register was read once, `from` came
/// back, and `to` was written to it once, with `outcome`.
pub open spec fn updated<E>(
    before: Seq<Transfer<E>>,
    after: Seq<Transfer<E>>,
    register: u8,
    from: u8,
    to: u8,
    outcome: Result<(), E>,
) -> bool {
    after == before.push(register_read(register, Ok(from))).push(
        register_write(register, to, outcome),
    )
}

} // verus!
