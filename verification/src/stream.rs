use std::time::Duration;
use vstd::prelude::*;

verus! {

/// The error type of the standard library's input and output. Nothing is
/// read from a value of it here but its kind, through [`failure_of`].
#[verifier::external_type_specification]
#[verifier::external_body]
pub struct ExIoError(std::io::Error);

/// The transport under a connection: a byte stream in both directions whose
/// reads can be made blocking, timed or non-blocking.
///
/// The methods promise nothing: a connection takes whatever they return.
pub trait Stream {
    /// Reads some bytes into `buf` and returns how many.
    fn read(&mut self, buf: &mut [u8]) -> (read: Result<usize, std::io::Error>);

    /// Writes all of `buf`.
    fn write_all(&mut self, buf: &[u8]) -> (written: Result<(), std::io::Error>);

    /// Sends on what has been written and is still held back.
    fn flush(&mut self) -> (flushed: Result<(), std::io::Error>);

    /// Makes reads return at once when nothing is there, or not.
    fn set_nonblocking(&self, nonblocking: bool) -> (set: Result<(), std::io::Error>);

    /// Bounds the time a read may wait, or lifts the bound.
    fn set_read_timeout(&self, dur: Option<Duration>) -> (set: Result<(), std::io::Error>);
}

/// The bytes that a read brought: the first `size` of the buffer as the read
/// left it, or all of it where it holds fewer.
pub open spec fn brought(buffer: Seq<u8>, size: usize) -> Seq<u8> {
    if size <= buffer.len() {
        buffer.take(size as int)
    } else {
        buffer
    }
}

/// Why a read failed, as far as a connection tells failures apart.
#[derive(Debug, PartialEq, Eq, Clone, Copy, Structural)]
pub enum ReadFailure {
    /// Nothing was there to read and the read would not wait.
    WouldBlock,
    /// The time to wait ran out.
    TimedOut,
    /// Any other failure.
    Other,
}

/// `std::io::Error::kind`, told apart as far as a connection needs: the
/// kinds `WouldBlock` and `TimedOut` by their names, every other kind as
/// `Other`. Nothing is claimed of which kind an error has.
#[verifier::external_body]
pub(crate) fn failure_of(error: &std::io::Error) -> (failure: ReadFailure) {
    match error.kind() {
        std::io::ErrorKind::WouldBlock => ReadFailure::WouldBlock,
        std::io::ErrorKind::TimedOut => ReadFailure::TimedOut,
        _ => ReadFailure::Other,
    }
}

/// Whether `failure` is what a connection takes the error of a failed read
/// for: what [`failure_of`] made of the error.
pub closed spec fn taken_for(error: std::io::Error, failure: ReadFailure) -> bool {
    call_ensures(failure_of, (&error,), failure)
}

/// What a connection takes the error of a failed read for.
pub(crate) fn classify(error: &std::io::Error) -> (failure: ReadFailure)
    ensures
        taken_for(*error, failure),
{
    failure_of(error)
}

} // verus!
