//! An I/O object split into a reading half and a writing half.
use vstd::prelude::*;

verus! {

#[verifier::external_type_specification]
#[verifier::external_body]
pub struct ExIoError(std::io::Error);

/// The reading half of a split I/O object.
pub struct SplitReader<T> {
    inner: T,
}

impl<T> SplitReader<T> {
    /// The object that this half reads from.
    pub closed spec fn spec_inner(&self) -> T {
        self.inner
    }

    /// Wraps `io` as a reading half.
    pub fn new(io: T) -> (r: Self)
        ensures
            r.spec_inner() == io,
    {
        SplitReader { inner: io }
    }

    /// The object that this half reads from.
    pub fn inner(&self) -> (r: &T)
        ensures
            *r == self.spec_inner(),
    {
        &self.inner
    }
}

/// The writing half of a split I/O object.
pub struct SplitWriter<T> {
    inner: T,
}

impl<T> SplitWriter<T> {
    /// The object that this half writes to.
    pub closed spec fn spec_inner(&self) -> T {
        self.inner
    }

    /// Wraps `io` as a writing half.
    pub fn new(io: T) -> (r: Self)
        ensures
            r.spec_inner() == io,
    {
        SplitWriter { inner: io }
    }

    /// The object that this half writes to.
    pub fn inner(&self) -> (r: &T)
        ensures
            *r == self.spec_inner(),
    {
        &self.inner
    }
}

/// An I/O object that can be split into a reading and a writing half.
pub trait SplitIo {
    /// Splits the object into its two halves.
    fn split(self) -> std::io::Result<(SplitReader<Self>, SplitWriter<Self>)> where Self: Sized;
}

impl<T: std::io::Read> std::io::Read for SplitReader<T> {
    /// Relies on `Read::read` of the inner object: reads from it.
    #[verifier::external_body]
    fn read(&mut self, buf: &mut [u8]) -> std::io::Result<usize> {
        self.inner.read(buf)
    }
}

impl<T: std::io::Write> std::io::Write for SplitWriter<T> {
    /// Relies on `Write::write` of the inner object: writes to it.
    #[verifier::external_body]
    fn write(&mut self, buf: &[u8]) -> std::io::Result<usize> {
        self.inner.write(buf)
    }

    /// Relies on `Write::flush` of the inner object: flushes it.
    #[verifier::external_body]
    fn flush(&mut self) -> std::io::Result<()> {
        self.inner.flush()
    }
}

} // verus!
