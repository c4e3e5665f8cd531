//! Wrappers that let a transport of one I/O trait set stand in for another.
//!
//! Both are plain forwarding shims around one owned value; they add no
//! protocol knowledge and leave the failure type as it is.

use vstd::prelude::*;
use crate::transport::{logged, Read, ReadRecord, Write, WriteRecord};

verus! {

/// Marks a transport that speaks a general-purpose I/O trait set as one to be
/// used where the driver's own traits are asked for.
pub struct FromEmbeddedIo<T>(pub T);

impl<T> FromEmbeddedIo<T> {
    /// Gives the wrapped transport back.
    pub fn into_inner(self) -> (inner: T)
        ensures
            inner == self.0,
    {
        self.0
    }
}

/// Wrapper type that presents one of the driver's transports in the shape that
/// general-purpose I/O code expects: a write that reports how many bytes it
/// took, a read, and a flush.
pub struct Compat<T>(pub T);

impl<T> Compat<T> {
    /// Wraps `inner`.
    pub fn new(inner: T) -> (c: Self)
        ensures
            c.0 == inner,
    {
        Self(inner)
    }

    /// Gives the wrapped transport back.
    pub fn into_inner(self) -> (inner: T)
        ensures
            inner == self.0,
    {
        self.0
    }
}

/// The transport's answer behind a counted result: success without the
/// count, or the failure as it is.
pub open spec fn answer_of<E>(counted: Result<usize, E>) -> Result<(), E> {
    match counted {
        Ok(_) => Ok(()),
        Err(e) => Err(e),
    }
}

impl<T: Write> Compat<T> {
    /// Hands `buf` to the transport in one write and reports all of it as
    /// written when the transport succeeds. The transport either takes the
    /// whole buffer or fails, so a short count never comes back.
    pub fn write(&mut self, buf: &[u8]) -> (r: Result<usize, T::Error>)
        ensures
            r matches Ok(n) ==> n == buf@.len(),
            final(self).0.write_log() == logged(
                old(self).0.write_log(),
                WriteRecord { data: buf@, result: answer_of(r) },
            ),
    {
        match self.0.write(buf) {
            Ok(done) => {
                assert(done == ());
                Ok(buf.len())
            },
            Err(e) => Err(e),
        }
    }

    /// Does nothing and succeeds: the transport holds nothing back, so there
    /// is never anything to flush.
    pub fn flush(&mut self) -> (r: Result<(), T::Error>)
        ensures
            r is Ok,
            final(self).0 == old(self).0,
    {
        Ok(())
    }
}

impl<T: Read> Compat<T> {
    /// Passes one read straight through to the transport.
    pub fn read(&mut self, buf: &mut [u8]) -> (r: Result<usize, T::Error>)
        ensures
            r matches Ok(n) ==> n <= old(buf)@.len(),
            final(buf)@.len() == old(buf)@.len(),
            final(self).0.read_log() == logged(
                old(self).0.read_log(),
                ReadRecord { buffer: final(buf)@, result: r },
            ),
    {
        self.0.read(buf)
    }
}

} // verus!
