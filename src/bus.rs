//! The two bus primitives the driver consumes. Implementations are supplied
//! by the caller (a hardware peripheral, or a simulated bus in tests).
//!
//! Each trait keeps a log of the transactions made through it, so that the
//! driver's contracts can say what it sends, what it reads, and what becomes
//! of each outcome.
use vstd::prelude::*;

verus! {

/// A write: device address, bytes sent, outcome.
pub type WriteRecord<E> = (u8, Seq<u8>, Result<(), E>);

/// A write-then-read: device address, bytes sent, bytes received, outcome.
pub type Transaction<E> = (u8, Seq<u8>, Seq<u8>, Result<(), E>);

/// The writes made through a bus, oldest first.
pub type WriteLog<E> = Seq<WriteRecord<E>>;

/// The write-then-read transactions made through a bus, oldest first.
pub type TransactionLog<E> = Seq<Transaction<E>>;

/// Writes bytes to a device on the bus. `writes` is a model for proofs
/// only: it is never called when the program runs.
pub trait I2cWrite {
    type Error;

    /// The writes made so far, oldest first.
    spec fn writes(&self) -> WriteLog<Self::Error>;

    /// Sends `bytes` to the device at the 7-bit `address`.
    fn write(&mut self, address: u8, bytes: &[u8]) -> (r: Result<(), Self::Error>)
        ensures
            final(self).writes() == old(self).writes().push((address, bytes@, r)),
    ;
}

/// Writes bytes to a device, then reads its reply into a buffer.
/// `transactions` is a model for proofs only: it is never called when the
/// program runs.
pub trait I2cWriteRead {
    type Error;

    /// The write-then-read transactions made so far, oldest first.
    spec fn transactions(&self) -> TransactionLog<Self::Error>;

    /// Sends `bytes` to the device at the 7-bit `address`, then fills
    /// `buffer` with the bytes the device answers.
    fn write_read(&mut self, address: u8, bytes: &[u8], buffer: &mut [u8]) -> (r: Result<
        (),
        Self::Error,
    >)
        ensures
            final(buffer)@.len() == old(buffer)@.len(),
            final(self).transactions() == old(self).transactions().push(
                (address, bytes@, final(buffer)@, r),
            ),
    ;
}

/// A transaction that sends the one-byte register address `register` to
/// `address` and reads `len` bytes back.
pub open spec fn is_register_read<E>(t: Transaction<E>, address: u8, register: u8, len: nat) -> bool {
    &&& t.0 == address
    &&& t.1 == seq![register]
    &&& t.2.len() == len
}

/// `after` is `before` with one register read appended.
pub open spec fn one_read<E>(
    before: Seq<Transaction<E>>,
    after: Seq<Transaction<E>>,
    address: u8,
    register: u8,
    len: nat,
) -> bool {
    &&& after.len() == before.len() + 1
    &&& after.drop_last() == before
    &&& is_register_read(after.last(), address, register, len)
}

} // verus!
